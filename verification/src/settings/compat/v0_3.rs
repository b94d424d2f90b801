//! The record of format 0.3. The colour expression, smoothing, the black
//! interior and the added `c` came later.

use crate::settings::wire::{base64_bytes, base64_decode, bincode_read_v0_3, bincode_read_v0_3_from};
use crate::settings::{
    default_settings, default_shader_data, result_view, CustomShaderData, CustomShaderDataView,
    InvalidSettingsImportError,
};
use vstd::prelude::*;

verus! {

/// The record as it is read.
#[derive(Debug, Clone, PartialEq, Eq)]
pub struct UserSettings {
    pub zoom: u32,
    pub centre: [u32; 2],
    pub iterations: i32,
    pub equation: String,
    pub prev_equation: String,
    pub equation_valid: bool,
    pub julia_set: bool,
    pub initial_value: [u32; 2],
    pub escape_threshold: u32,
}

/// The record as plain values.
pub struct UserSettingsView {
    pub zoom: u32,
    pub centre: (u32, u32),
    pub iterations: i32,
    pub equation: Seq<char>,
    pub prev_equation: Seq<char>,
    pub equation_valid: bool,
    pub julia_set: bool,
    pub initial_value: (u32, u32),
    pub escape_threshold: u32,
}

impl View for UserSettings {
    type V = UserSettingsView;

    open spec fn view(&self) -> UserSettingsView {
        UserSettingsView {
            zoom: self.zoom,
            centre: (self.centre[0], self.centre[1]),
            iterations: self.iterations,
            equation: self.equation@,
            prev_equation: self.prev_equation@,
            equation_valid: self.equation_valid,
            julia_set: self.julia_set,
            initial_value: (self.initial_value[0], self.initial_value[1]),
            escape_threshold: self.escape_threshold,
        }
    }
}

/// What a payload of format 0.3 holds: the record, or the error that reading it
/// gives.
pub open spec fn payload_record(payload: Seq<char>) -> Result<
    UserSettingsView,
    InvalidSettingsImportError,
> {
    match base64_bytes(payload) {
        None => Err(InvalidSettingsImportError::InvalidBase64),
        Some(bytes) => match bincode_read_v0_3(bytes) {
            None => Err(InvalidSettingsImportError::DeserialisationFailed),
            Some(record) => Ok(record),
        },
    }
}

/// The current settings that stand for `record`: each field that the record has
/// is kept, each that it lacks gets its default.
pub open spec fn upgraded(record: UserSettingsView) -> crate::settings::UserSettingsView {
    crate::settings::UserSettingsView {
        zoom: record.zoom,
        centre: record.centre,
        iterations: record.iterations,
        julia_set: record.julia_set,
        initial_value: record.initial_value,
        escape_threshold: record.escape_threshold,
        shader_data: CustomShaderDataView {
            equation: record.equation,
            ..default_shader_data()
        },
        ..default_settings()
    }
}

impl UserSettings {
    /// Reads the record from the base64 payload of a settings text tagged 0.3.
    pub fn import_string(string: &str) -> (r: Result<Self, InvalidSettingsImportError>)
        ensures
            result_view(r) == payload_record(string@),
    {
        let bytes = match base64_decode(string) {
            Ok(bytes) => bytes,
            Err(_) => {
                return Err(InvalidSettingsImportError::InvalidBase64);
            },
        };
        match bincode_read_v0_3_from(bytes.as_slice()) {
            Ok(record) => Ok(record),
            Err(_) => Err(InvalidSettingsImportError::DeserialisationFailed),
        }
    }

    /// Brings the record up to the current settings.
    pub fn into(self) -> (r: crate::settings::UserSettings)
        ensures
            r@ == upgraded(self@),
    {
        crate::settings::UserSettings {
            zoom: self.zoom,
            centre: self.centre,
            iterations: self.iterations,
            julia_set: self.julia_set,
            initial_value: self.initial_value,
            escape_threshold: self.escape_threshold,
            shader_data: CustomShaderData {
                equation: self.equation,
                ..Default::default()
            },
            ..Default::default()
        }
    }
}

} // verus!
