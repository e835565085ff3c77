//! One data file exported by a cycler, identified by unit and channel.
use crate::plugin::parser::{form_name, form_name_spec, ParseError, Sources};
use crate::text::{decimal_digits, decimal_string, same_text};
use vstd::prelude::*;

verus! {

/// A data file together with the cycler that wrote it and the unit and
/// channel it records.
#[derive(Debug)]
pub struct DataForm {
    path: String,
    source: Sources,
    unit: String,
    channel: String,
}

impl DataForm {
    pub closed spec fn path_view(&self) -> Seq<char> {
        self.path@
    }

    pub closed spec fn source_view(&self) -> Sources {
        self.source
    }

    pub closed spec fn unit_view(&self) -> Seq<char> {
        self.unit@
    }

    pub closed spec fn channel_view(&self) -> Seq<char> {
        self.channel@
    }

    /// The data file at `path`, identified from its file name `file_stem`
    /// (the name without extension).
    pub fn init(path: String, file_stem: &str) -> (r: Result<DataForm, ParseError>)
        ensures
            match r {
                Ok(f) => form_name_spec(file_stem@) == Some(
                    (f.source_view(), f.unit_view(), f.channel_view()),
                ) && f.path_view() == path@,
                Err(ParseError::UnrecognizedFileName(n)) => form_name_spec(file_stem@) is None
                    && n@ == file_stem@,
            },
    {
        match form_name(file_stem) {
            Ok((source, unit, channel)) => Ok(DataForm { path, source, unit, channel }),
            Err(e) => Err(e),
        }
    }

    /// The data file at `path`, identified from the information sheet
    /// inside it: cycler, unit and channel number.
    pub fn from_info(path: String, source: Sources, unit: String, channel: u32) -> (r: DataForm)
        ensures
            r.path_view() == path@,
            r.source_view() == source,
            r.unit_view() == unit@,
            r.channel_view() == decimal_digits(channel as nat),
    {
        DataForm { path, source, unit, channel: decimal_string(channel as u64) }
    }

    /// The path of the data file.
    pub fn get_form_path(&self) -> (r: String)
        ensures
            r@ == self.path_view(),
    {
        self.path.clone()
    }

    /// The cycler that wrote the file.
    pub fn get_source(&self) -> (r: Sources)
        ensures
            r == self.source_view(),
    {
        self.source
    }

    /// The unit the file records.
    pub fn get_unit(&self) -> (r: String)
        ensures
            r@ == self.unit_view(),
    {
        self.unit.clone()
    }

    /// The channel the file records.
    pub fn get_channel(&self) -> (r: String)
        ensures
            r@ == self.channel_view(),
    {
        self.channel.clone()
    }

    /// Whether the file records `channel`.
    pub fn channel_eq(&self, channel: &str) -> (r: bool)
        ensures
            r == (self.channel_view() == channel@),
    {
        same_text(self.channel.as_str(), channel)
    }
}

impl Clone for DataForm {
    fn clone(&self) -> (r: DataForm)
        ensures
            r.path_view() == self.path_view(),
            r.source_view() == self.source_view(),
            r.unit_view() == self.unit_view(),
            r.channel_view() == self.channel_view(),
    {
        DataForm {
            path: self.path.clone(),
            source: self.source,
            unit: self.unit.clone(),
            channel: self.channel.clone(),
        }
    }
}

} // verus!
