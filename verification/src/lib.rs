//! Paint descriptions, paint series and mixing for artists' colour tools.

use vstd::prelude::*;

pub mod characteristics;
pub mod colour;
pub mod digest;
pub mod legacy;
pub mod mixtures;
pub mod properties;
pub mod series;
pub mod sorted;
pub mod spec;
pub mod text;
pub mod watercolour;

use serde_json::Error as JsonError;
use std::io::Error as IoError;

use crate::properties::{
    Finish, Fluorescence, Granulation, LightFastness, Metallicness, Opacity, Permanence, Property,
    PropertyType, Staining, Transparency,
};

verus! {

/// Text for a tooltip describing an item.
pub trait TooltipText {
    fn tooltip_text(&self) -> String;
}

/// Text for a label naming an item.
pub trait LabelText {
    fn label_text(&self) -> String;
}

/// What describes a paint besides its colour: an id, an optional name and
/// notes, and its properties.
pub trait BasicPaintIfce {
    spec fn spec_id(&self) -> Seq<char>;

    spec fn spec_name(&self) -> Option<Seq<char>>;

    spec fn spec_notes(&self) -> Option<Seq<char>>;

    spec fn spec_finish(&self) -> Finish;

    spec fn spec_transparency(&self) -> Transparency;

    spec fn spec_opacity(&self) -> Opacity;

    spec fn spec_fluorescence(&self) -> Fluorescence;

    spec fn spec_permanence(&self) -> Permanence;

    spec fn spec_metallicness(&self) -> Metallicness;

    spec fn spec_light_fastness(&self) -> LightFastness;

    spec fn spec_staining(&self) -> Staining;

    spec fn spec_granulation(&self) -> Granulation;

    fn id(&self) -> (r: &str)
        ensures
            r@ == self.spec_id(),
    ;

    fn name(&self) -> (r: Option<&str>)
        ensures
            match r {
                Some(name) => self.spec_name() == Some(name@),
                None => self.spec_name() is None,
            },
    ;

    fn notes(&self) -> (r: Option<&str>)
        ensures
            match r {
                Some(notes) => self.spec_notes() == Some(notes@),
                None => self.spec_notes() is None,
            },
    ;

    fn finish(&self) -> (r: Finish)
        ensures
            r == self.spec_finish(),
    ;

    fn transparency(&self) -> (r: Transparency)
        ensures
            r == self.spec_transparency(),
    ;

    fn opacity(&self) -> (r: Opacity)
        ensures
            r == self.spec_opacity(),
    ;

    fn fluorescence(&self) -> (r: Fluorescence)
        ensures
            r == self.spec_fluorescence(),
    ;

    fn permanence(&self) -> (r: Permanence)
        ensures
            r == self.spec_permanence(),
    ;

    fn metallicness(&self) -> (r: Metallicness)
        ensures
            r == self.spec_metallicness(),
    ;

    fn light_fastness(&self) -> (r: LightFastness)
        ensures
            r == self.spec_light_fastness(),
    ;

    fn staining(&self) -> (r: Staining)
        ensures
            r == self.spec_staining(),
    ;

    fn granulation(&self) -> (r: Granulation)
        ensures
            r == self.spec_granulation(),
    ;

    /// The paint's property of the given type. An opacity request is
    /// answered with the paint's granulation.
    fn property(&self, property_type: PropertyType) -> (r: Property)
        ensures
            r == (match property_type {
                PropertyType::Finish => Property::Finish(self.spec_finish()),
                PropertyType::Transparency => Property::Transparency(self.spec_transparency()),
                PropertyType::Permanence => Property::Permanence(self.spec_permanence()),
                PropertyType::Fluorescence => Property::Fluorescence(self.spec_fluorescence()),
                PropertyType::Metallicness => Property::Metallicness(self.spec_metallicness()),
                PropertyType::Staining => Property::Staining(self.spec_staining()),
                PropertyType::LightFastness => Property::LightFastness(
                    self.spec_light_fastness(),
                ),
                PropertyType::Granulation => Property::Granulation(self.spec_granulation()),
                PropertyType::Opacity => Property::Granulation(self.spec_granulation()),
            }),
    {
        match property_type {
            PropertyType::Finish => Property::Finish(self.finish()),
            PropertyType::Transparency => Property::Transparency(self.transparency()),
            PropertyType::Permanence => Property::Permanence(self.permanence()),
            PropertyType::Fluorescence => Property::Fluorescence(self.fluorescence()),
            PropertyType::Metallicness => Property::Metallicness(self.metallicness()),
            PropertyType::Staining => Property::Staining(self.staining()),
            PropertyType::LightFastness => Property::LightFastness(self.light_fastness()),
            PropertyType::Granulation => Property::Granulation(self.granulation()),
            PropertyType::Opacity => Property::Granulation(self.granulation()),
        }
    }
}

#[verifier::external_type_specification]
#[verifier::external_body]
pub struct ExIoError(IoError);

#[verifier::external_type_specification]
#[verifier::external_body]
pub struct ExSerdeJsonError(JsonError);

/// The errors of the library.
#[derive(Debug)]
pub enum Error {
    IOError(IoError),
    SerdeJsonError(JsonError),
    NotFound(String),
    UnknownSeries(series::SeriesId),
    UnknownSeriesPaint(series::SeriesId, String),
    NotAValidLegacySpec,
    NotImplemented,
}

/// An I/O error as `Display` writes it. What the text says is the
/// operating system's and is not stated.
#[verifier::external_body]
fn io_error_text(err: &IoError) -> String {
    err.to_string()
}

/// A JSON error as `Display` writes it. What the text says is not
/// stated.
#[verifier::external_body]
fn serde_json_error_text(err: &JsonError) -> String {
    err.to_string()
}

impl Error {
    /// The message of an error of the library's own; for the errors of I/O
    /// and JSON, the prefix that comes before the outside error's text.
    pub open spec fn spec_message(&self) -> Seq<char> {
        match self {
            Error::IOError(_) => "IOError: "@,
            Error::SerdeJsonError(_) => "Serde Json Error: "@,
            Error::NotFound(string) => string@ + ": Not found."@,
            Error::UnknownSeries(series_id) => series_id.spec_display() + ": unknown paint series"@,
            Error::UnknownSeriesPaint(series_id, id) => id@ + ":("@ + series_id.spec_display()
                + "): unknown paint"@,
            Error::NotAValidLegacySpec => "Not a valid specification."@,
            Error::NotImplemented => "Feature not yet implemented."@,
        }
    }

    /// The error as text. For the errors of I/O and JSON, the prefix is
    /// followed by the outside error's own text.
    pub fn message(&self) -> (r: String)
        ensures
            match self {
                Error::IOError(_) | Error::SerdeJsonError(_) => self.spec_message().is_prefix_of(
                    r@,
                ),
                _ => r@ == self.spec_message(),
            },
    {
        let mut r = String::new();
        match self {
            Error::IOError(err) => {
                r.append("IOError: ");
                let text = io_error_text(err);
                r.append(text.as_str());
            },
            Error::SerdeJsonError(err) => {
                r.append("Serde Json Error: ");
                let text = serde_json_error_text(err);
                r.append(text.as_str());
            },
            Error::NotFound(string) => {
                r.append(string.as_str());
                r.append(": Not found.");
            },
            Error::UnknownSeries(series_id) => {
                let sid = series_id.display_string();
                r.append(sid.as_str());
                r.append(": unknown paint series");
            },
            Error::UnknownSeriesPaint(series_id, id) => {
                let sid = series_id.display_string();
                r.append(id.as_str());
                r.append(":(");
                r.append(sid.as_str());
                r.append("): unknown paint");
            },
            Error::NotAValidLegacySpec => {
                r.append("Not a valid specification.");
            },
            Error::NotImplemented => {
                r.append("Feature not yet implemented.");
            },
        }
        assert(self.spec_message().is_prefix_of(r@) || r@ =~= self.spec_message());
        r
    }
}

/// The result of the library's fallible operations.
pub type Result<T> = std::result::Result<T, Error>;

} // verus!
