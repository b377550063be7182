//! Tonality: notes, pitch classes and the capability of tonal types.
use vstd::prelude::*;

pub mod note;

use crate::capability::CoreMT;

verus! {

/// A value that can name a note.
pub trait NoteName {}

impl<'a> NoteName for &'a str {}

/// A value that can stand for a pitch class.
pub trait PitchClass {}

impl PitchClass for u8 {}

/// A list of note names.
pub struct NoteNames<T: NoteName> {
    pub names: Vec<T>,
}

/// A list of pitch classes.
pub struct PitchClasses<T: PitchClass> {
    pub classes: Vec<T>,
}

/// The symbols used to write notes.
pub struct Symbols {}

/// A type that reads the tonality part of the configuration.
pub trait TonalityMT: CoreMT {}

} // verus!
