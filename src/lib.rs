use vstd::prelude::*;

pub mod debounce;
pub mod hot_reload;
pub mod normal_loading;
pub mod watch;

verus! {

} // verus!
