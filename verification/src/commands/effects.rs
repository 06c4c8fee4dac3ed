//! Effects commands: the effect catalogue the front end browses, custom
//! effect creation, and the transition list.

use vstd::prelude::*;
use crate::commands::CommandResult;
use crate::host;
use crate::utils::str_eq;

verus! {

/// The broad kind of an effect.
#[derive(Debug, Clone, Copy, PartialEq, Eq, Structural)]
pub enum EffectType {
    Video,
    Audio,
    Transition,
    Generator,
}

/// The default value of an effect parameter: a number in fixed-point
/// units, or a text such as a color code.
#[derive(Debug, Clone)]
pub enum ParamDefault {
    Number(i64),
    Text(String),
}

/// One declared parameter of a catalogued effect; numeric bounds in
/// fixed-point units.
#[derive(Debug, Clone)]
pub struct EffectParameter {
    pub name: String,
    pub param_type: String,
    pub default_value: ParamDefault,
    pub min_value: Option<i64>,
    pub max_value: Option<i64>,
    pub choices: Option<Vec<String>>,
}

/// One catalogued effect, as the command layer exchanges it.
#[derive(Debug, Clone)]
pub struct Effect {
    pub id: String,
    pub name: String,
    pub category: String,
    pub effect_type: EffectType,
    pub parameters: Vec<EffectParameter>,
    pub gpu_accelerated: bool,
}

/// Applies a video effect to a clip. The kernel runs in the host's raster
/// pipeline; acknowledging the job never fails.
pub fn apply_video_effect(_clip_id: String, _effect_id: String, _params: serde_json::Value)
    -> (r: CommandResult<bool>)
    ensures
        r is Ok && r.unwrap(),
{
    Ok(true)
}

/// Applies an image effect to a layer. The kernel runs in the host's
/// raster pipeline; acknowledging the job never fails.
pub fn apply_image_effect(_layer_id: String, _effect_id: String, _params: serde_json::Value)
    -> (r: CommandResult<bool>)
    ensures
        r is Ok && r.unwrap(),
{
    Ok(true)
}

/// Gets the available effects, optionally filtered to `video`, `audio` or
/// `transition`: the three built-in video effects (a blur, a keyer and an
/// artistic brush), so any filter other than `audio` and `transition`
/// keeps all three.
pub fn get_available_effects(effect_type: Option<String>) -> (r: CommandResult<Vec<Effect>>)
    ensures
        r is Ok,
        ({
            let es = r.unwrap()@;
            (match effect_type {
                Some(f) => if f@ == "audio"@ || f@ == "transition"@ {
                    es.len() == 0
                } else {
                    es.len() == 3
                },
                None => es.len() == 3,
            })
            && (es.len() == 3 ==> es[0].name@ == "Gaussian Blur"@
                && es[0].category@ == "Blur & Sharpen"@
                && es[0].effect_type == EffectType::Video
                && es[0].parameters@.len() == 1
                && es[0].gpu_accelerated
                && es[1].name@ == "Chroma Key"@
                && es[1].parameters@.len() == 2
                && es[2].name@ == "Oil Paint"@
                && !es[2].gpu_accelerated)
        }),
{
    let mut effects: Vec<Effect> = Vec::new();

    let mut blur_params: Vec<EffectParameter> = Vec::new();
    blur_params.push(EffectParameter {
        name: "Radius".to_owned(),
        param_type: "float".to_owned(),
        default_value: ParamDefault::Number(5 * crate::fixed::SCALE),
        min_value: Some(0),
        max_value: Some(100 * crate::fixed::SCALE),
        choices: None,
    });
    effects.push(Effect {
        id: host::new_id(),
        name: "Gaussian Blur".to_owned(),
        category: "Blur & Sharpen".to_owned(),
        effect_type: EffectType::Video,
        parameters: blur_params,
        gpu_accelerated: true,
    });

    let mut key_params: Vec<EffectParameter> = Vec::new();
    key_params.push(EffectParameter {
        name: "Key Color".to_owned(),
        param_type: "color".to_owned(),
        default_value: ParamDefault::Text("#00FF00".to_owned()),
        min_value: None,
        max_value: None,
        choices: None,
    });
    key_params.push(EffectParameter {
        name: "Tolerance".to_owned(),
        param_type: "float".to_owned(),
        default_value: ParamDefault::Number(10 * crate::fixed::SCALE),
        min_value: Some(0),
        max_value: Some(100 * crate::fixed::SCALE),
        choices: None,
    });
    effects.push(Effect {
        id: host::new_id(),
        name: "Chroma Key".to_owned(),
        category: "Keying".to_owned(),
        effect_type: EffectType::Video,
        parameters: key_params,
        gpu_accelerated: true,
    });

    let mut oil_params: Vec<EffectParameter> = Vec::new();
    oil_params.push(EffectParameter {
        name: "Brush Size".to_owned(),
        param_type: "int".to_owned(),
        default_value: ParamDefault::Number(5 * crate::fixed::SCALE),
        min_value: Some(crate::fixed::SCALE),
        max_value: Some(20 * crate::fixed::SCALE),
        choices: None,
    });
    effects.push(Effect {
        id: host::new_id(),
        name: "Oil Paint".to_owned(),
        category: "Artistic".to_owned(),
        effect_type: EffectType::Video,
        parameters: oil_params,
        gpu_accelerated: false,
    });

    // Every built-in effect is a video effect, so an audio or transition
    // filter keeps none and any other request keeps all.
    if let Some(type_filter) = effect_type {
        if str_eq(type_filter.as_str(), "audio") || str_eq(type_filter.as_str(), "transition") {
            return Ok(Vec::new());
        }
    }
    Ok(effects)
}

/// A user-defined effect.
#[derive(Debug, Clone)]
pub struct CustomEffectDefinition {
    pub name: String,
    pub category: String,
    pub shader_code: Option<String>,
    pub script_code: Option<String>,
}

/// Creates a custom effect from a definition: a fresh id, no parameters
/// yet, accelerated exactly when shader code is present.
pub fn create_custom_effect(definition: CustomEffectDefinition) -> (r: CommandResult<Effect>)
    ensures
        r is Ok,
        r.unwrap().id@.len() == 36,
        r.unwrap().name == definition.name,
        r.unwrap().category == definition.category,
        r.unwrap().effect_type == EffectType::Video,
        r.unwrap().parameters@.len() == 0,
        r.unwrap().gpu_accelerated == (definition.shader_code is Some),
{
    let accelerated = definition.shader_code.is_some();
    Ok(Effect {
        id: host::new_id(),
        name: definition.name,
        category: definition.category,
        effect_type: EffectType::Video,
        parameters: Vec::new(),
        gpu_accelerated: accelerated,
    })
}

/// Transition parameters; duration in fixed-point seconds.
#[derive(Debug, Clone)]
pub struct TransitionParams {
    pub transition_type: String,
    pub duration: i64,
    pub easing: String,
}

/// Gets the available transition names.
pub fn get_available_transitions() -> (r: CommandResult<Vec<String>>)
    ensures
        r is Ok,
        r.unwrap()@.len() == 11,
        r.unwrap()@[0]@ == "Crossfade"@,
        r.unwrap()@[10]@ == "Page Turn"@,
{
    let mut v: Vec<String> = Vec::new();
    v.push("Crossfade".to_owned());
    v.push("Fade to Black".to_owned());
    v.push("Fade to White".to_owned());
    v.push("Wipe Left".to_owned());
    v.push("Wipe Right".to_owned());
    v.push("Slide Push".to_owned());
    v.push("Zoom In".to_owned());
    v.push("Zoom Out".to_owned());
    v.push("Spin".to_owned());
    v.push("Iris Round".to_owned());
    v.push("Page Turn".to_owned());
    Ok(v)
}

} // verus!
