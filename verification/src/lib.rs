//! Bookkeeping for the graphics chunks of an id-engine game archive.
//!
//! A small script lists the fonts, bitmaps, sprites, tiles and miscellaneous
//! chunks of a game. This library reads such a script into an inventory,
//! gives every asset its chunk index, and renders the files that the game's
//! tools want to see.
//!
//! - [`scan`] and [`grammar`] say, as mathematical functions, which tokens a
//!   text holds and which inventory it declares; [`layout`] says which chunk
//!   index every asset gets.
//! - [`parser`] holds the lexer, [`script`] the reader of scripts and
//!   [`headers`] the inventory with its layout queries. Each is proved to
//!   compute what the functions above say.
//! - [`gfxinfo`], [`modid`], [`omnispeak`], [`igrab_header`] and
//!   [`igrab_asm`] render an inventory; [`igrab`] lays out single lines and
//!   [`binary_io`] single numbers. Each states the exact output.
//! - [`unicode`] names what is taken from the standard library unproved.
//!
//! Nothing here touches a file: text comes in as `&str`, and output is
//! appended to a `String` or a `Vec<u8>`.

pub mod unicode;
pub mod token;
pub mod scan;
pub mod text;
pub mod join;
pub mod parser;
pub mod binary_io;
pub mod layout;
pub mod headers;
pub mod grammar;
pub mod script;
pub mod igrab;
pub mod gfxinfo;
pub mod modid;
pub mod omnispeak;
pub mod igrab_header;
pub mod igrab_asm;
