use vstd::prelude::*;

verus! {

/// A resolved piece of media: a single absolute URL pointing directly at the
/// playable or viewable asset. Equality is structural (two values are equal
/// exactly when their URLs are equal).
#[derive(Debug, Clone)]
pub struct Media {
    pub url: String,
}

impl PartialEq for Media {
    fn eq(&self, other: &Self) -> (r: bool) {
        self.url == other.url
    }
}

impl vstd::std_specs::cmp::PartialEqSpecImpl for Media {
    open spec fn obeys_eq_spec() -> bool {
        true
    }

    open spec fn eq_spec(&self, other: &Self) -> bool {
        self.url@ == other.url@
    }
}

} // verus!
