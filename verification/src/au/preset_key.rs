//! The documented keys of an audio unit preset dictionary.  Each function
//! returns its exact key string.

use vstd::prelude::*;

verus! {

/// The key of the preset format version.
pub fn version() -> (r: &'static str)
    ensures
        r@ == "version"@,
{
    "version"
}

/// The key of the unit's type code.
pub fn type_() -> (r: &'static str)
    ensures
        r@ == "type"@,
{
    "type"
}

/// The key of the unit's subtype code.
pub fn subtype() -> (r: &'static str)
    ensures
        r@ == "subtype"@,
{
    "subtype"
}

/// The key of the unit's manufacturer code.
pub fn manufacturer() -> (r: &'static str)
    ensures
        r@ == "manufacturer"@,
{
    "manufacturer"
}

/// The key of the preset's payload.
pub fn data() -> (r: &'static str)
    ensures
        r@ == "data"@,
{
    "data"
}

/// The key of the preset's name.
pub fn name() -> (r: &'static str)
    ensures
        r@ == "name"@,
{
    "name"
}

/// The key of the preset's number.
pub fn preset_number() -> (r: &'static str)
    ensures
        r@ == "preset-number"@,
{
    "preset-number"
}

/// The key of the render quality.
pub fn render_quality() -> (r: &'static str)
    ensures
        r@ == "render-quality"@,
{
    "render-quality"
}

/// The key of the processor load cap.
pub fn cpu_load() -> (r: &'static str)
    ensures
        r@ == "cpu-load"@,
{
    "cpu-load"
}

/// The key of an element's name.
pub fn element_name() -> (r: &'static str)
    ensures
        r@ == "element-name"@,
{
    "element-name"
}

/// The key of the preset's external file references.
pub fn file_refs() -> (r: &'static str)
    ensures
        r@ == "file-references"@,
{
    "file-references"
}

/// The key of embedded third-party plug-in state.
pub fn vst_data() -> (r: &'static str)
    ensures
        r@ == "vstdata"@,
{
    "vstdata"
}

/// The key of an embedded third-party preset.
pub fn vst_preset() -> (r: &'static str)
    ensures
        r@ == "vstpreset"@,
{
    "vstpreset"
}

/// The key of embedded legacy sequencer state.
pub fn mas_data() -> (r: &'static str)
    ensures
        r@ == "masdata"@,
{
    "masdata"
}

/// The key telling a global preset from a part-scope preset.
pub fn part() -> (r: &'static str)
    ensures
        r@ == "part"@,
{
    "part"
}

} // verus!
