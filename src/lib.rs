use vstd::prelude::*;

pub mod cli;
pub mod frame;
pub mod geometry;
pub mod layout;
pub mod projection;
pub mod surface;

use crate::cli::{size_from_args, arg_bytes, read_size_args, ArgError};
use crate::surface::WindowSize;

verus! {

/// Initial window width in physical pixels when none is given.
pub const DEFAULT_WIDTH: u32 = 1600;

/// Initial window height in physical pixels when none is given.
pub const DEFAULT_HEIGHT: u32 = 1200;

/// Start-up settings of the application.
#[derive(Clone, Copy, Debug, PartialEq, Eq, Structural)]
pub struct Config {
    pub initial_window_size: WindowSize,
}

impl Default for Config {
    fn default() -> (r: Self)
        ensures
            r.initial_window_size == (WindowSize { width: DEFAULT_WIDTH, height: DEFAULT_HEIGHT }),
    {
        Config { initial_window_size: WindowSize { width: DEFAULT_WIDTH, height: DEFAULT_HEIGHT } }
    }
}

impl Config {
    /// The configuration chosen by the command-line arguments `args` (the
    /// program's name excluded): the default one unless `--size
    /// WIDTH,HEIGHT` comes first.
    pub fn from_args(args: &Vec<Vec<u8>>) -> (r: Result<Config, ArgError>)
        ensures
            r == (match size_from_args(
                arg_bytes(args@),
                WindowSize { width: DEFAULT_WIDTH, height: DEFAULT_HEIGHT },
            ) {
                Ok(s) => Ok(Config { initial_window_size: s }),
                Err(e) => Err(e),
            }),
    {
        let default = WindowSize { width: DEFAULT_WIDTH, height: DEFAULT_HEIGHT };
        match read_size_args(args, default) {
            Ok(s) => Ok(Config { initial_window_size: s }),
            Err(e) => Err(e),
        }
    }
}

} // verus!
