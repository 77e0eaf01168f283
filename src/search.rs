use vstd::prelude::*;
use crate::entity::Item;
use crate::error::Error;
use crate::entity::opt_view;
use crate::text::{chars_of, string_of};
use tantivy::schema::Value;
use tantivy::collector::TopDocs;
use tantivy::query::QueryParser;
use tantivy::TantivyDocument;

verus! {

#[verifier::external_type_specification]
#[verifier::external_body]
pub struct ExSchema(tantivy::schema::Schema);

#[verifier::external_type_specification]
#[verifier::external_body]
pub struct ExField(tantivy::schema::Field);

#[verifier::external_type_specification]
#[verifier::external_body]
pub struct ExIndex(tantivy::Index);

#[verifier::external_type_specification]
#[verifier::external_body]
pub struct ExTempDir(tempfile::TempDir);

/// Memory, in bytes, that the index writer may use.
pub const WRITER_MEMORY: usize = 50_000_000;

/// The schema of a catalog index with its fields: the category, the link
/// target and the position are stored only, the label words are tokenized,
/// indexed and stored.
pub struct CatalogSchema {
    pub schema: tantivy::schema::Schema,
    pub item_type: tantivy::schema::Field,
    pub href: tantivy::schema::Field,
    pub path: tantivy::schema::Field,
    pub position: tantivy::schema::Field,
}

/// A throwaway full-text index over one catalog, in a temporary directory
/// removed with it. Opaque to proofs: Verus does not accept a declaration of
/// tantivy's writer, whose parameter is bound by an outside trait; the names
/// `indexed_of` and `committed_of` say what it holds.
#[verifier::external_body]
pub struct CatalogIndex {
    writer: tantivy::IndexWriter<tantivy::TantivyDocument>,
    index: tantivy::Index,
    fields: CatalogSchema,
    dir: tempfile::TempDir,
}

/// Why a ranked lookup failed.
pub enum QueryFailure {
    /// The keyword is not a valid query expression.
    Syntax(String),
    /// The engine failed while searching.
    Engine(String),
}

/// One indexed document: category, link target, label words and catalog position.
pub type Entry = (Seq<char>, Option<Seq<char>>, Option<Seq<char>>, u64);

/// Whether tantivy's `QueryParser::parse_query`, on the catalog schema with its
/// default tokenizers and the label words as default field, accepts the keyword.
pub uninterp spec fn query_parses(keyword: Seq<char>) -> bool;

/// Whether the query parsed from the keyword matches a document whose label
/// words field holds the given text (or nothing). Matching depends on the
/// document's own tokens only.
pub uninterp spec fn label_matches(keyword: Seq<char>, words: Option<Seq<char>>) -> bool;

/// The documents added to the index so far, in order.
pub uninterp spec fn indexed_of(ix: CatalogIndex) -> Seq<Entry>;

/// The documents that searches see: those of the last commit.
pub uninterp spec fn committed_of(ix: CatalogIndex) -> Seq<Entry>;

pub open spec fn opt_str_view(o: Option<&str>) -> Option<Seq<char>> {
    match o {
        Some(s) => Some(s@),
        None => None,
    }
}

/// How many documents the keyword matches.
pub open spec fn match_count(entries: Seq<Entry>, keyword: Seq<char>) -> nat {
    entries.filter(|e: Entry| label_matches(keyword, e.2)).len()
}

pub open spec fn min_nat(a: nat, b: nat) -> nat {
    if a <= b { a } else { b }
}

/// What a ranked lookup returns, over the documents `entries`: one stored
/// position per hit, each hit a distinct matching document (`ks` gives their
/// indices), and every match present when there are at most `limit`.
pub open spec fn hits_spec(entries: Seq<Entry>, keyword: Seq<char>, limit: nat, hits: Seq<Option<u64>>, ks: Seq<int>) -> bool {
    &&& ks.len() == hits.len()
    &&& forall|j: int| 0 <= j < ks.len() ==> 0 <= #[trigger] ks[j] < entries.len()
        && hits[j] == Some(entries[ks[j]].3)
        && label_matches(keyword, entries[ks[j]].2)
    &&& forall|a: int, b: int| 0 <= a < b < ks.len() ==> #[trigger] ks[a] != #[trigger] ks[b]
    &&& match_count(entries, keyword) <= limit ==> forall|k: int| 0 <= k < entries.len()
        && label_matches(keyword, #[trigger] entries[k].2) ==> ks.contains(k)
}

/// Relies on tantivy's `SchemaBuilder`: adds the four catalog fields and builds the schema.
#[verifier::external_body]
fn catalog_schema() -> (r: CatalogSchema) {
    let mut builder = tantivy::schema::Schema::builder();
    let item_type = builder.add_text_field("type", tantivy::schema::STORED);
    let href = builder.add_text_field("href", tantivy::schema::STORED);
    let path = builder.add_text_field("path", tantivy::schema::TEXT | tantivy::schema::STORED);
    let position = builder.add_u64_field("position", tantivy::schema::STORED);
    CatalogSchema { schema: builder.build(), item_type, href, path, position }
}

/// Relies on tantivy's `QueryParser::new` and `parse_query`, on the catalog schema
/// with the default tokenizers (those of every index it creates).
#[verifier::external_body]
fn check_query(keyword: &str) -> (r: Result<(), String>)
    ensures
        r is Ok == query_parses(keyword@),
{
    let fields = catalog_schema();
    let parser = QueryParser::new(fields.schema, vec![fields.path], tantivy::tokenizer::TokenizerManager::default());
    parser.parse_query(keyword).map(|_| ()).map_err(|e| e.to_string())
}

/// Relies on `tempfile::tempdir`: a fresh directory, removed when the value is dropped.
#[verifier::external_body]
fn temp_index_dir() -> (r: Result<tempfile::TempDir, String>) {
    tempfile::tempdir().map_err(|e| e.to_string())
}

/// Relies on tantivy's `Index::create_in_dir` and `Index::writer_with_num_threads`:
/// a new, empty index over the catalog schema, written by one thread so that
/// documents keep their catalog order (the engine breaks score ties by it).
#[verifier::external_body]
fn open_catalog_index(dir: tempfile::TempDir, memory: usize) -> (r: Result<CatalogIndex, String>)
    ensures
        r matches Ok(ix) ==> indexed_of(ix) == Seq::<Entry>::empty() && committed_of(ix) == Seq::<Entry>::empty(),
{
    let fields = catalog_schema();
    let index = tantivy::Index::create_in_dir(dir.path(), fields.schema.clone()).map_err(|e| e.to_string())?;
    let writer = index.writer_with_num_threads(1, memory).map_err(|e| e.to_string())?;
    Ok(CatalogIndex { writer, index, fields, dir })
}

/// Relies on `TantivyDocument::add_text`, `add_u64` and `IndexWriter::add_document`:
/// one document with the given values is queued; nothing is committed.
#[verifier::external_body]
fn add_entry(ix: &mut CatalogIndex, item_type: &str, href: Option<&str>, words: Option<&str>, position: u64) -> (r: Result<(), String>)
    ensures
        committed_of(*final(ix)) == committed_of(*old(ix)),
        r is Ok ==> indexed_of(*final(ix)) == indexed_of(*old(ix)).push((item_type@, opt_str_view(href), opt_str_view(words), position)),
{
    let mut doc = tantivy::TantivyDocument::default();
    doc.add_text(ix.fields.item_type, item_type);
    if let Some(h) = href { doc.add_text(ix.fields.href, h); }
    if let Some(w) = words { doc.add_text(ix.fields.path, w); }
    doc.add_u64(ix.fields.position, position);
    ix.writer.add_document(doc).map(|_| ()).map_err(|e| e.to_string())
}

/// Relies on tantivy's `IndexWriter::commit`: what was added becomes searchable.
#[verifier::external_body]
fn commit(ix: &mut CatalogIndex) -> (r: Result<(), String>)
    ensures
        indexed_of(*final(ix)) == indexed_of(*old(ix)),
        r is Ok ==> committed_of(*final(ix)) == indexed_of(*old(ix)),
{
    ix.writer.commit().map(|_| ()).map_err(|e| e.to_string())
}

/// Relies on tantivy's `Index::reader`, `QueryParser::parse_query` on the label
/// words field, `TopDocs::with_limit(..).order_by_score()` (every matching
/// document once, at most `limit`, best first) and `Searcher::doc` on those hits:
/// the stored position of each hit.
#[verifier::external_body]
fn ranked_positions(ix: &CatalogIndex, keyword: &str, limit: usize) -> (r: Result<Vec<Option<u64>>, QueryFailure>)
    requires
        limit > 0,
    ensures
        (r matches Err(QueryFailure::Syntax(_))) == !query_parses(keyword@),
        r matches Ok(v) ==> v.len() == min_nat(limit as nat, match_count(committed_of(*ix), keyword@))
            && exists|ks: Seq<int>| hits_spec(committed_of(*ix), keyword@, limit as nat, v@, ks),
        r matches Ok(v) ==> forall|j: int| 0 <= j < v.len() ==> exists|k: int| 0 <= k < committed_of(*ix).len()
            && #[trigger] v@[j] == Some(committed_of(*ix)[k].3) && label_matches(keyword@, committed_of(*ix)[k].2),
{
    let parser = QueryParser::for_index(&ix.index, vec![ix.fields.path]);
    let query = parser.parse_query(keyword).map_err(|e| QueryFailure::Syntax(e.to_string()))?;
    let searcher = ix.index.reader().map_err(|e| QueryFailure::Engine(e.to_string()))?.searcher();
    searcher.search(&query, &TopDocs::with_limit(limit).order_by_score()).map_err(|e| QueryFailure::Engine(e.to_string()))?.into_iter().map(|(_, a)| {
        let doc: TantivyDocument = searcher.doc(a).map_err(|e| QueryFailure::Engine(e.to_string()))?;
        Ok(doc.get_first(ix.fields.position).and_then(|p| p.as_u64()))
    }).collect()
}

/// Whether a space goes before position `i` of a label: a capital letter that
/// follows a small letter or a digit starts a new word.
pub open spec fn word_boundary(s: Seq<char>, i: int) -> bool {
    0 < i < s.len() && 'A' <= s[i] && s[i] <= 'Z'
        && (('a' <= s[i - 1] && s[i - 1] <= 'z') || ('0' <= s[i - 1] && s[i - 1] <= '9'))
}

/// A label with its camel-case words set apart by spaces ("BoolDeserializer"
/// becomes "Bool Deserializer"), so that each word is a token of its own.
pub open spec fn label_words(s: Seq<char>) -> Seq<char>
    decreases s.len(),
{
    if s.len() == 0 {
        s
    } else {
        label_words(s.drop_last()) + if word_boundary(s, s.len() - 1) {
            seq![' ', s.last()]
        } else {
            seq![s.last()]
        }
    }
}

pub open spec fn opt_label_words(o: Option<Seq<char>>) -> Option<Seq<char>> {
    match o {
        Some(s) => Some(label_words(s)),
        None => None,
    }
}

/// The document that stands for the catalog entry at position `i`.
pub open spec fn entry_of(item: Item, i: int) -> Entry {
    (item.item_type@, opt_view(item.href), opt_label_words(opt_view(item.path)), i as u64)
}

pub open spec fn catalog_entries(catalog: Seq<Item>) -> Seq<Entry> {
    Seq::new(catalog.len(), |i: int| entry_of(catalog[i], i))
}

/// The label with its camel-case words set apart by spaces.
pub fn split_label_words(label: &str) -> (r: String)
    ensures
        r@ == label_words(label@),
{
    let s = chars_of(label);
    let mut out: Vec<char> = Vec::new();
    let mut i: usize = 0;
    while i < s.len()
        invariant
            i <= s.len(),
            s@ == label@,
            out@ == label_words(s@.take(i as int)),
        decreases s.len() - i,
    {
        let c = s[i];
        let ghost t = s@.take(i as int + 1);
        assert(t.drop_last() =~= s@.take(i as int));
        if i > 0 && 'A' <= c && c <= 'Z' && (('a' <= s[i - 1] && s[i - 1] <= 'z') || ('0' <= s[i - 1] && s[i - 1] <= '9')) {
            out.push(' ');
        }
        out.push(c);
        assert(word_boundary(t, i as int) == word_boundary(s@, i as int));
        assert(out@ =~= label_words(t));
        i = i + 1;
    }
    assert(s@.take(i as int) =~= s@);
    string_of(&out)
}

fn opt_as_str(o: &Option<String>) -> (r: Option<&str>)
    ensures
        opt_str_view(r) == opt_view(*o),
{
    match o {
        Some(s) => Some(s.as_str()),
        None => None,
    }
}

/// What a search returns, over the catalog: entry `j` of the result is the
/// catalog entry at index `ks[j]`; those indices are distinct, each entry's
/// label words match the keyword, and every matching entry is there when there
/// are at most [`crate::SEARCH_LIMIT`].
pub open spec fn found_spec(catalog: Seq<Item>, keyword: Seq<char>, found: Seq<Item>, ks: Seq<int>) -> bool {
    &&& ks.len() == found.len()
    &&& forall|j: int| 0 <= j < ks.len() ==> 0 <= #[trigger] ks[j] < catalog.len()
        && found[j]@ == catalog[ks[j]]@
        && label_matches(keyword, opt_label_words(opt_view(catalog[ks[j]].path)))
    &&& forall|a: int, b: int| 0 <= a < b < ks.len() ==> #[trigger] ks[a] != #[trigger] ks[b]
    &&& match_count(catalog_entries(catalog), keyword) <= crate::SEARCH_LIMIT ==> forall|k: int| 0 <= k < catalog.len()
        && label_matches(keyword, opt_label_words(opt_view(#[trigger] catalog[k].path))) ==> ks.contains(k)
}

/// Whether every stored position is present and inside the catalog.
pub open spec fn positions_valid(positions: Seq<Option<u64>>, len: int) -> bool {
    forall|j: int| 0 <= j < positions.len() ==> (#[trigger] positions[j] matches Some(p) && (p as int) < len)
}

impl crate::docs::DocsUseCase {
/// The catalog entries at the given positions, in the given order; an engine
/// error when a position is missing or outside the catalog.
pub fn items_at(&self, catalog: &Vec<Item>, positions: &Vec<Option<u64>>) -> (r: Result<Vec<Item>, Error>)
    ensures
        r is Ok == positions_valid(positions@, catalog.len() as int),
        r matches Ok(found) ==> found.len() == positions.len() && forall|j: int| 0 <= j < found.len()
            ==> #[trigger] found[j]@ == catalog[positions@[j].unwrap() as int]@,
        r matches Err(e) ==> e is FuzzySearch,
{
    let mut found: Vec<Item> = Vec::new();
    let mut j: usize = 0;
    while j < positions.len()
        invariant
            j <= positions.len(),
            found.len() == j,
            positions_valid(positions@.take(j as int), catalog.len() as int),
            forall|m: int| 0 <= m < j ==> #[trigger] found[m]@ == catalog[positions@[m].unwrap() as int]@,
        decreases positions.len() - j,
    {
        let position = match positions[j] {
            Some(p) => {
                if p >= catalog.len() as u64 {
                    assert(!(positions@[j as int] matches Some(q) && (q as int) < catalog.len()));
                    return Err(Error::FuzzySearch("a hit lies outside the catalog".to_string()));
                }
                p as usize
            },
            None => return Err(Error::FuzzySearch("a hit has no catalog position".to_string())),
        };
        found.push(catalog[position].duplicate());
        assert(positions@.take(j as int + 1) =~= positions@.take(j as int).push(positions@[j as int]));
        j = j + 1;
    }
    assert(positions@.take(j as int) =~= positions@);
    Ok(found)
}

/// Ranks the catalog's entries against the keyword, parsed as a query over the
/// labels (camel-case words set apart), and returns at most
/// [`crate::SEARCH_LIMIT`] of them, best first: distinct entries, each with a
/// matching label, all of the matching ones when there are no more than the limit.
pub fn search_items(&self, catalog: &Vec<Item>, keyword: &str) -> (r: Result<Vec<Item>, Error>)
    ensures
        (r matches Err(Error::FuzzySearchQueryParse(_))) == !query_parses(keyword@),
        r matches Ok(found) ==> {
            &&& found.len() == min_nat(crate::SEARCH_LIMIT as nat, match_count(catalog_entries(catalog@), keyword@))
            &&& exists|ks: Seq<int>| #[trigger] found_spec(catalog@, keyword@, found@, ks)
        },
        r matches Err(e) ==> e is FuzzySearchQueryParse || e is CreateTempDir || e is FuzzySearch,
{
    match check_query(keyword) {
        Ok(()) => {},
        Err(msg) => return Err(Error::FuzzySearchQueryParse(msg)),
    }
    let dir = match temp_index_dir() {
        Ok(d) => d,
        Err(msg) => return Err(Error::CreateTempDir(msg)),
    };
    let mut ix = match open_catalog_index(dir, WRITER_MEMORY) {
        Ok(ix) => ix,
        Err(msg) => return Err(Error::FuzzySearch(msg)),
    };
    let mut i: usize = 0;
    while i < catalog.len()
        invariant
            i <= catalog.len(),
            indexed_of(ix) == catalog_entries(catalog@).take(i as int),
            committed_of(ix) == Seq::<Entry>::empty(),
            query_parses(keyword@),
        decreases catalog.len() - i,
    {
        let item = &catalog[i];
        let words = match &item.path {
            Some(label) => Some(split_label_words(label.as_str())),
            None => None,
        };
        let words_ref = opt_as_str(&words);
        match add_entry(&mut ix, item.item_type.as_str(), opt_as_str(&item.href), words_ref, i as u64) {
            Ok(()) => {},
            Err(msg) => return Err(Error::FuzzySearch(msg)),
        }
        assert(opt_view(words) == opt_label_words(opt_view(item.path)));
        assert(catalog_entries(catalog@).take(i as int + 1) =~= catalog_entries(catalog@).take(i as int).push(entry_of(catalog@[i as int], i as int)));
        i = i + 1;
    }
    assert(catalog_entries(catalog@).take(i as int) =~= catalog_entries(catalog@));
    match commit(&mut ix) {
        Ok(()) => {},
        Err(msg) => return Err(Error::FuzzySearch(msg)),
    }
    let positions = match ranked_positions(&ix, keyword, crate::SEARCH_LIMIT) {
        Ok(p) => p,
        Err(QueryFailure::Syntax(msg)) => return Err(Error::FuzzySearch(msg)),
        Err(QueryFailure::Engine(msg)) => return Err(Error::FuzzySearch(msg)),
    };
    let ghost entries = catalog_entries(catalog@);
    let ghost ks = choose|ks: Seq<int>| hits_spec(entries, keyword@, crate::SEARCH_LIMIT as nat, positions@, ks);
    proof {
        assert forall|j: int| 0 <= j < positions@.len() implies (#[trigger] positions@[j] matches Some(p) && (p as int) < catalog.len()) by {
            assert(0 <= ks[j] < entries.len());
            assert(positions@[j] == Some(entries[ks[j]].3));
        }
    }
    let found = match self.items_at(catalog, &positions) {
        Ok(f) => f,
        Err(e) => return Err(e),
    };
    proof {
        assert forall|j: int| 0 <= j < ks.len() implies #[trigger] found@[j]@ == catalog@[ks[j]]@ by {
            assert(positions@[j] == Some(entries[ks[j]].3));
            assert(found@[j]@ == catalog@[positions@[j].unwrap() as int]@);
        }
        if match_count(entries, keyword@) <= crate::SEARCH_LIMIT {
            assert forall|k: int| 0 <= k < catalog.len()
                && label_matches(keyword@, opt_label_words(opt_view(#[trigger] catalog@[k].path))) implies ks.contains(k) by {
                assert(entries[k].2 == opt_label_words(opt_view(catalog@[k].path)));
            }
        }
        assert forall|j: int| 0 <= j < ks.len() implies 0 <= #[trigger] ks[j] < catalog.len()
            && found@[j]@ == catalog@[ks[j]]@
            && label_matches(keyword@, opt_label_words(opt_view(catalog@[ks[j]].path))) by {
            assert(entries[ks[j]].2 == opt_label_words(opt_view(catalog@[ks[j]].path)));
        }
        assert(found_spec(catalog@, keyword@, found@, ks));
    }
    Ok(found)
}

}

} // verus!
