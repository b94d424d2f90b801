//! The shader template and its two slots. Validating a finished source is
//! the caller's part: the validator may fail in ways that only a thread of
//! its own contains. What is decided here is whether a source may go to it.

use crate::settings::{CustomShaderData, CustomShaderDataView};
use crate::shape::{check_shape, source_problem};
use crate::text::{replace_all, replace_text};
use vstd::prelude::*;
use vstd::string::*;

verus! {

/// The slot for the expression that gives the next `z`.
pub const EQUATION_SLOT: &'static str = "REPLACE_FRACTAL_EQN";

/// The slot for the expression that gives a pixel's colour.
pub const COLOUR_SLOT: &'static str = "REPLACE_COLOR";

/// The shader with both slots open. Additional code goes behind its end.
pub const SHADER: &'static str = "struct Uniforms {
    scale: f32,
    escape_threshold: f32,
    centre: vec2<f32>,
    iterations: i32,
    flags: u32,
    initial_value: vec2<f32>
}

@group(0) @binding(0)
var<uniform> uniforms: Uniforms;

@vertex
fn vs_main(@builtin(vertex_index) index: u32) -> @builtin(position) vec4<f32> {
    var x: f32 = -1.0;
    var y: f32 = -1.0;
    if (index == 1u || index == 4u || index == 5u) {
        x = 1.0;
    }
    if (index == 2u || index == 3u || index == 5u) {
        y = 1.0;
    }
    return vec4<f32>(x, y, 0.0, 1.0);
}

fn csquare(z: vec2<f32>) -> vec2<f32> {
    return vec2<f32>(z.x * z.x - z.y * z.y, 2.0 * z.x * z.y);
}

fn cmul(a: vec2<f32>, b: vec2<f32>) -> vec2<f32> {
    return vec2<f32>(a.x * b.x - a.y * b.y, a.x * b.y + a.y * b.x);
}

fn cdiv(a: vec2<f32>, b: vec2<f32>) -> vec2<f32> {
    let d = dot(b, b);
    return vec2<f32>((a.x * b.x + a.y * b.y) / d, (a.y * b.x - a.x * b.y) / d);
}

fn hsv_rgb(hsv: vec3<f32>) -> vec3<f32> {
    let h = fract(hsv.x) * 6.0;
    let f = fract(h);
    let p = hsv.z * (1.0 - hsv.y);
    let q = hsv.z * (1.0 - hsv.y * f);
    let t = hsv.z * (1.0 - hsv.y * (1.0 - f));
    var rgb = vec3<f32>(hsv.z, p, q);
    if (h < 1.0) {
        rgb = vec3<f32>(hsv.z, t, p);
    } else if (h < 2.0) {
        rgb = vec3<f32>(q, hsv.z, p);
    } else if (h < 3.0) {
        rgb = vec3<f32>(p, hsv.z, t);
    } else if (h < 4.0) {
        rgb = vec3<f32>(p, q, hsv.z);
    } else if (h < 5.0) {
        rgb = vec3<f32>(t, p, hsv.z);
    }
    return rgb;
}

@fragment
fn fs_main(@builtin(position) position: vec4<f32>) -> @location(0) vec4<f32> {
    let julia_set = (uniforms.flags & 1u) != 0u;
    let smoothen = (uniforms.flags & 2u) != 0u;
    let internal_black = (uniforms.flags & 4u) != 0u;
    let initial_c = (uniforms.flags & 8u) != 0u;

    let point = position.xy * uniforms.scale - uniforms.centre;
    var z = uniforms.initial_value;
    var c = point;
    if (julia_set) {
        z = point;
        c = uniforms.initial_value;
    }
    if (initial_c) {
        z = z + c;
    }

    var i: i32 = 0;
    loop {
        if (i >= uniforms.iterations || length(z) > uniforms.escape_threshold) {
            break;
        }
        z = REPLACE_FRACTAL_EQN;
        i = i + 1;
    }

    if (internal_black && i >= uniforms.iterations) {
        return vec4<f32>(0.0, 0.0, 0.0, 1.0);
    }

    var n = f32(i);
    if (smoothen && i < uniforms.iterations) {
        n = n + 1.0 - log2(log(length(z)) / log(uniforms.escape_threshold));
    }
    let colour: vec3<f32> = REPLACE_COLOR;
    return vec4<f32>(colour, 1.0);
}
";

/// `template` with the equation in its first slot and the colour in its
/// second. The colour slot is filled after the equation is in place.
pub open spec fn templated(template: Seq<char>, equation: Seq<char>, colour: Seq<char>) -> Seq<
    char,
> {
    replace_all(replace_all(template, EQUATION_SLOT@, equation), COLOUR_SLOT@, colour)
}

/// The full source for the fragments: the filled template, then the
/// additional code as it is.
pub open spec fn shader_source(data: CustomShaderDataView) -> Seq<char> {
    templated(SHADER@, data.equation, data.colour) + data.additional
}

/// A verdict by the characters of its message.
pub open spec fn verdict_view(verdict: Result<(), String>) -> Result<(), Seq<char>> {
    match verdict {
        Ok(_) => Ok(()),
        Err(message) => Err(message@),
    }
}

/// Whether `source` may go to the validator: `Ok` unless it is over a
/// limit, and then that limit's message.
pub open spec fn admission(source: Seq<char>) -> Result<(), Seq<char>> {
    match source_problem(source) {
        Some(problem) => Err(problem.message()),
        None => Ok(()),
    }
}

/// The template with both slots filled.
pub fn fill_template(equation: &str, colour: &str) -> (r: String)
    ensures
        r@ == templated(SHADER@, equation@, colour@),
{
    let with_equation = replace_text(SHADER, EQUATION_SLOT, equation);
    replace_text(with_equation.as_str(), COLOUR_SLOT, colour)
}

/// Tells whether a finished source may go to the validator. A source over
/// a limit is turned away here, with the limit's message; this is the only
/// verdict that does not come from the validator.
pub fn admit_source(source: &str) -> (r: Result<(), String>)
    ensures
        verdict_view(r) == admission(source@),
{
    match check_shape(source) {
        Some(problem) => Err(problem.to_str().to_owned()),
        None => Ok(()),
    }
}

impl CustomShaderData {
    /// The full shader source for these fragments.
    pub fn shader(&self) -> (r: String)
        ensures
            r@ == shader_source(self@),
    {
        let mut source = fill_template(self.equation.as_str(), self.colour.as_str());
        source.append(self.additional.as_str());
        source
    }
}

/// The same fragments give the same source: templating keeps no state.
pub proof fn lemma_templating_is_repeatable(a: CustomShaderDataView, b: CustomShaderDataView)
    requires
        a.equation == b.equation,
        a.colour == b.colour,
        a.additional == b.additional,
    ensures
        shader_source(a) == shader_source(b),
{
}

} // verus!
