//! A named profile's configuration: which backend kind it selects, and that
//! backend's options.

use vstd::prelude::*;

use crate::paraformer_config::ParaformerV2Config;
use crate::qwen_config::QwenV3Config;

verus! {

/// The backend selection of one profile. Adding a backend means adding a
/// variant here and one adapter, not touching the existing ones.
pub enum ProfileConfig {
    ParaformerV2(ParaformerV2Config),
    QwenV3(QwenV3Config),
}

impl ProfileConfig {
    /// The name of the backend kind this profile selects.
    pub fn backend_name(&self) -> (r: &'static str)
        ensures
            self is ParaformerV2 ==> r@ == "ParaformerV2"@,
            self is QwenV3 ==> r@ == "QwenV3"@,
    {
        match self {
            ProfileConfig::ParaformerV2(_) => "ParaformerV2",
            ProfileConfig::QwenV3(_) => "QwenV3",
        }
    }
}

} // verus!
