//! The supported embedding model: its identity and its dimensionality.

use vstd::prelude::*;

verus! {

/// Name of the one pretrained model this library serves.
pub const MODEL_NAME: &'static str = "all-MiniLM-L6-v2";

/// Number of components of every embedding the supported model produces.
pub const EMBEDDING_DIM: usize = 384;

/// The fixed identifier of the supported model.
pub open spec fn model_name_spec() -> Seq<char> {
    MODEL_NAME@
}

/// Returns the identifier of the supported model; it never depends on whether
/// a model has been loaded anywhere.
pub fn model_name() -> (r: String)
    ensures
        r@ == model_name_spec(),
{
    MODEL_NAME.to_owned()
}

} // verus!
