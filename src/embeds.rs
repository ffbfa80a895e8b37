//! The rich message that a notification carries.
use vstd::prelude::*;

verus! {

#[derive(Debug, Clone)]
pub struct Embed {
    pub title: String,
    pub fields: Vec<EmbedField>,
    pub url: String,
}

impl Embed {
    /// An embed with the given link and title and no fields yet.
    pub fn from(url: String, title: String) -> (r: Self)
        ensures
            r.url == url,
            r.title == title,
            r.fields@.len() == 0,
    {
        Embed { title, url, fields: Vec::new() }
    }
}

#[derive(Debug, Clone)]
pub struct EmbedField {
    pub name: String,
    pub value: String,
}

impl EmbedField {
    pub fn from(name: String, value: String) -> (r: Self)
        ensures
            r.name == name,
            r.value == value,
    {
        EmbedField { name, value }
    }
}

} // verus!
