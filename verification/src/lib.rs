//! Three-party secret-shared arithmetic on 32-bit words, in the style of
//! MPC-in-the-head: a prover records one view per party while it evaluates
//! gates on shared words, and a verifier replays two of the three views and
//! checks them against what was recorded.
//!
//! Each type has a plain model as its view, and each gate is a spec
//! function on the models (`prover_var`, `verifier_var`), built from the
//! word-level functions of `shares`. The executable gates are proved to
//! compute these functions, and `laws` proves what they mean for the words
//! that the shares stand for.

pub mod error;
pub mod shares;
pub mod bit_lemmas;
pub mod carry_lemmas;
pub mod tape;
pub mod digest;
pub mod view;
pub mod context;
pub mod prover_var;
pub mod verifier_var;
pub mod laws;

pub use context::{get_next_random_from_context, IKosContext};
pub use error::{IKosError, IKosErrorKind, IKosResult};
pub use prover_var::IKosVariable4P;
pub use verifier_var::IKosVariable4V;
pub use view::IKosView;
