//! Provisioning and launch of a versioned runtime for a packaged game.
//!
//! The crate resolves which build of a runtime satisfies the version
//! constraint of a game, plans its download and unpacking, assembles the
//! classpath and the command line of the game process, and maps the exit of
//! that process to an outcome. Nothing in it touches the disk, the network
//! or a process: it is handed what was read and answers with what is to be
//! done. Every function states its behaviour in a contract over sequences
//! of characters and bytes.
//!
//! - [`version`]: semantic versions and constraints, on top of `semver`.
//! - [`sdk`]: the manifest of runtimes, the choice of a build, and the
//!   plan that makes a build present.
//! - [`archive`]: unpacking of zip and gzip-compressed tar archives, on
//!   top of `zip`, `flate2` and `tar`.
//! - [`net`]: the progress of a transfer.
//! - [`launch`]: the command that starts a game and the stages of a launch.
//! - [`util`]: the constraint of a configuration, the layout of the data
//!   directory, and the classpath.
//! - [`profiles`]: the list of profiles and the import of a package.
//! - [`platform`], [`game`], [`error`], [`text`]: what the others build on.

pub mod archive;
pub mod error;
pub mod game;
pub mod launch;
pub mod net;
pub mod platform;
pub mod profiles;
pub mod sdk;
pub mod text;
pub mod util;
pub mod version;
