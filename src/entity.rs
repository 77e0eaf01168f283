use vstd::prelude::*;

verus! {

/// One entry of a package's catalog of documented items.
#[derive(Debug)]
pub struct Item {
    /// The heading of the section that lists the item ("Structs", "Enums", ...).
    pub item_type: String,
    /// The link target of the item's page, when the anchor has one.
    pub href: Option<String>,
    /// The anchor's text, when there is one.
    pub path: Option<String>,
}

/// The mathematical value of an [`Item`].
pub struct ItemView {
    pub item_type: Seq<char>,
    pub href: Option<Seq<char>>,
    pub path: Option<Seq<char>>,
}

pub open spec fn opt_view(o: Option<String>) -> Option<Seq<char>> {
    match o {
        Some(s) => Some(s@),
        None => None,
    }
}

impl View for Item {
    type V = ItemView;

    open spec fn view(&self) -> ItemView {
        ItemView { item_type: self.item_type@, href: opt_view(self.href), path: opt_view(self.path) }
    }
}

pub fn clone_opt_string(o: &Option<String>) -> (r: Option<String>)
    ensures
        opt_view(r) == opt_view(*o),
{
    match o {
        Some(s) => Some(s.clone()),
        None => None,
    }
}

impl Item {
    /// A copy of the item with the same field values.
    pub fn duplicate(&self) -> (r: Item)
        ensures
            r@ == self@,
    {
        Item {
            item_type: self.item_type.clone(),
            href: clone_opt_string(&self.href),
            path: clone_opt_string(&self.path),
        }
    }
}

} // verus!
