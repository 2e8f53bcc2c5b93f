//! Artist objects.

use vstd::prelude::*;
use std::collections::HashMap;
use crate::model::senum::Type;

verus! {

/// A simplified artist object.
#[derive(Clone, Debug)]
pub struct SimplifiedArtist {
    pub external_urls: HashMap<String, String>,
    pub href: Option<String>,
    pub id: Option<String>,
    pub name: String,
    pub type_: Type,
    pub uri: Option<String>,
}

} // verus!
