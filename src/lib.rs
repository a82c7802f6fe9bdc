//! Configuration layer of an IRC URL bot: the settings schema and its
//! defaults, channel-list helpers, path normalisation and the assembly of
//! the runtime snapshot.

pub mod assembly;
pub mod paths;
pub mod runtime;
pub mod schema;

pub use assembly::{Assembly, Outcome, Stage, Step};
pub use paths::{expand_tilde, expand_tilde_with, parent_dir};
pub use runtime::{Paths, Rtd};
pub use schema::{Conf, Connection, Database, DbType, Features, Network, Parameters};
