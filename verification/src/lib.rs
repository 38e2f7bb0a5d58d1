use vstd::prelude::*;

pub mod cache;
pub mod handlers;
pub mod resolve;
pub mod second_level_domain;

verus! {

/// One normalized social-sharing metadata entry: a tag name such as
/// `og:title` together with its content value (empty when the source
/// element carried no `content` attribute).
#[derive(Debug)]
pub struct OpengraphTag {
    pub property: String,
    pub content: String,
}

impl View for OpengraphTag {
    type V = (Seq<char>, Seq<char>);

    open spec fn view(&self) -> (Seq<char>, Seq<char>) {
        (self.property@, self.content@)
    }
}

impl Clone for OpengraphTag {
    fn clone(&self) -> (r: Self)
        ensures
            r@ == self@,
    {
        OpengraphTag { property: self.property.clone(), content: self.content.clone() }
    }
}

/// A sequence of tags, seen as the sequence of their (property, content) pairs.
pub open spec fn tag_views(s: Seq<OpengraphTag>) -> Seq<(Seq<char>, Seq<char>)> {
    s.map_values(|t: OpengraphTag| t@)
}

/// An optional string, seen as an optional sequence of characters.
pub open spec fn opt_string_view(o: Option<String>) -> Option<Seq<char>> {
    match o {
        Some(s) => Some(s@),
        None => None,
    }
}

/// An optional tag, seen as an optional (property, content) pair.
pub open spec fn opt_tag_view(o: Option<OpengraphTag>) -> Option<(Seq<char>, Seq<char>)> {
    match o {
        Some(t) => Some(t@),
        None => None,
    }
}

} // verus!
