//! The record of format 0.4. The added `c` and the additional code came
//! later.

use crate::settings::wire::{base64_bytes, base64_decode, bincode_read_v0_4, bincode_read_v0_4_from};
use crate::settings::{
    default_settings, default_shader_data, result_view, CustomShaderData, CustomShaderDataView,
    InvalidSettingsImportError,
};
use vstd::prelude::*;

verus! {

/// The record as it is read.
#[derive(Debug, Clone, PartialEq, Eq)]
pub struct UserSettings {
    pub zoom: u32,
    pub centre: [u32; 2],
    pub iterations: i32,
    pub equation: String,
    pub prev_equation: String,
    pub colour: String,
    pub prev_colour: String,
    pub equation_valid: bool,
    pub julia_set: bool,
    pub smoothen: bool,
    pub internal_black: bool,
    pub initial_value: [u32; 2],
    pub escape_threshold: u32,
}

/// The record as plain values.
pub struct UserSettingsView {
    pub zoom: u32,
    pub centre: (u32, u32),
    pub iterations: i32,
    pub equation: Seq<char>,
    pub prev_equation: Seq<char>,
    pub colour: Seq<char>,
    pub prev_colour: Seq<char>,
    pub equation_valid: bool,
    pub julia_set: bool,
    pub smoothen: bool,
    pub internal_black: bool,
    pub initial_value: (u32, u32),
    pub escape_threshold: u32,
}

impl View for UserSettings {
    type V = UserSettingsView;

    open spec fn view(&self) -> UserSettingsView {
        UserSettingsView {
            zoom: self.zoom,
            centre: (self.centre[0], self.centre[1]),
            iterations: self.iterations,
            equation: self.equation@,
            prev_equation: self.prev_equation@,
            colour: self.colour@,
            prev_colour: self.prev_colour@,
            equation_valid: self.equation_valid,
            julia_set: self.julia_set,
            smoothen: self.smoothen,
            internal_black: self.internal_black,
            initial_value: (self.initial_value[0], self.initial_value[1]),
            escape_threshold: self.escape_threshold,
        }
    }
}

/// What a payload of format 0.4 holds: the record, or the error that reading it
/// gives.
pub open spec fn payload_record(payload: Seq<char>) -> Result<
    UserSettingsView,
    InvalidSettingsImportError,
> {
    match base64_bytes(payload) {
        None => Err(InvalidSettingsImportError::InvalidBase64),
        Some(bytes) => match bincode_read_v0_4(bytes) {
            None => Err(InvalidSettingsImportError::DeserialisationFailed),
            Some(record) => Ok(record),
        },
    }
}

/// The current settings that stand for `record`: each field that the record has
/// is kept, each that it lacks gets its default.
pub open spec fn upgraded(record: UserSettingsView) -> crate::settings::UserSettingsView {
    crate::settings::UserSettingsView {
        zoom: record.zoom,
        centre: record.centre,
        iterations: record.iterations,
        julia_set: record.julia_set,
        smoothen: record.smoothen,
        internal_black: record.internal_black,
        initial_value: record.initial_value,
        escape_threshold: record.escape_threshold,
        shader_data: CustomShaderDataView {
            equation: record.equation,
            colour: record.colour,
            ..default_shader_data()
        },
        ..default_settings()
    }
}

impl UserSettings {
    /// Reads the record from the base64 payload of a settings text tagged 0.4.
    pub fn import_string(string: &str) -> (r: Result<Self, InvalidSettingsImportError>)
        ensures
            result_view(r) == payload_record(string@),
    {
        let bytes = match base64_decode(string) {
            Ok(bytes) => bytes,
            Err(_) => {
                return Err(InvalidSettingsImportError::InvalidBase64);
            },
        };
        match bincode_read_v0_4_from(bytes.as_slice()) {
            Ok(record) => Ok(record),
            Err(_) => Err(InvalidSettingsImportError::DeserialisationFailed),
        }
    }

    /// Brings the record up to the current settings.
    pub fn into(self) -> (r: crate::settings::UserSettings)
        ensures
            r@ == upgraded(self@),
    {
        crate::settings::UserSettings {
            zoom: self.zoom,
            centre: self.centre,
            iterations: self.iterations,
            julia_set: self.julia_set,
            smoothen: self.smoothen,
            internal_black: self.internal_black,
            initial_value: self.initial_value,
            escape_threshold: self.escape_threshold,
            shader_data: CustomShaderData {
                equation: self.equation,
                colour: self.colour,
                ..Default::default()
            },
            ..Default::default()
        }
    }
}

} // verus!
