//! Flutter support for a code editor: the Flutter debug adapter's launch
//! configuration, the Flutter device picker and status-bar selector, and the
//! Dart language server's executable.
use vstd::prelude::*;

pub mod adapter;
pub mod dart;
pub mod device_args;
pub mod devices;
pub mod json;
pub mod selector;
