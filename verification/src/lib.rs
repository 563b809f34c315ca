//! Resolves a Reddit post reference — a full permalink or a `v.redd.it`
//! short-link — into a single direct media URL, or decides that no playable
//! media exists. The typed payload model, the classifier, and the two
//! bounded loop guards (HTTP redirects, cross-post hops) live here with
//! machine-checked contracts; callers drive the state machines and do the
//! actual network and file work.

pub mod argparse;
pub mod media;
pub mod media_extraction;
pub mod reddit;
mod text;
