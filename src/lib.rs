//! Reading and rewriting of CGFX (`.bcres`) containers: a file header, a table
//! of sixteen dictionary slots, named dictionaries of models and textures, and
//! the string and image sections that their records point into.
pub mod error;
pub mod pointer;
pub mod bytes;
pub mod math;
pub mod context;
pub mod dict;
pub mod lists;
pub mod records;
pub mod texture;
pub mod mesh;
pub mod material;
pub mod skeleton;
pub mod model;
pub mod container;
pub mod scene;

pub use bytes::{get_4_byte_string, read_string, write_at_pointer};
pub use container::CgfxContainer;
pub use context::WriteContext;
pub use dict::{CgfxCollectionValue, CgfxDict, CgfxNode};
pub use error::CgfxError;
