//! Image editing commands: importing, layer management, text and vector
//! layers.

use vstd::prelude::*;
use crate::commands::{CommandResult, Layer, LayerType, Transform};
use crate::host;
use crate::utils::str_eq;

verus! {

/// Image metadata, as the command layer reports it.
#[derive(Debug, Clone)]
pub struct ImageInfo {
    pub width: u32,
    pub height: u32,
    pub format: String,
    pub color_space: String,
    pub has_alpha: bool,
    pub dpi: u32,
}

/// Imports an image file and reports its metadata. Decoding the file is
/// the host's work; the advertised metadata stands in.
pub fn import_image(_path: String) -> (r: CommandResult<ImageInfo>)
    ensures
        r is Ok,
        r.unwrap().width == 1920 && r.unwrap().height == 1080,
        r.unwrap().format@ == "PNG"@,
        r.unwrap().color_space@ == "sRGB"@,
        r.unwrap().has_alpha,
        r.unwrap().dpi == 72,
{
    Ok(ImageInfo {
        width: 1920,
        height: 1080,
        format: "PNG".to_owned(),
        color_space: "sRGB".to_owned(),
        has_alpha: true,
        dpi: 72,
    })
}

/// Creates a new layer of the named kind: `image`, `adjustment`, `text` or
/// `vector`; any other name is rejected. The layer starts visible, fully
/// opaque, compositing normally, with the identity transform and no mask.
pub fn create_layer(layer_type: String, name: String) -> (r: CommandResult<Layer>)
    ensures
        r is Ok <==> (layer_type@ == "image"@ || layer_type@ == "adjustment"@
            || layer_type@ == "text"@ || layer_type@ == "vector"@),
        r is Err ==> (r->Err_0)@ == "Unknown layer type"@,
        r is Ok ==> r.unwrap().id@.len() == 36
            && r.unwrap().name == name
            && r.unwrap().visible
            && r.unwrap().opacity == crate::fixed::SCALE
            && r.unwrap().blend_mode@ == "normal"@
            && r.unwrap().mask is None,
        r is Ok && layer_type@ == "image"@ ==> r.unwrap().layer_type is Image,
        r is Ok && layer_type@ == "adjustment"@ ==> r.unwrap().layer_type is Adjustment,
        r is Ok && layer_type@ == "text"@ ==> r.unwrap().layer_type is Text,
        r is Ok && layer_type@ == "vector"@ ==> r.unwrap().layer_type is Vector,
{
    proof {
        reveal_strlit("image");
        reveal_strlit("adjustment");
        reveal_strlit("text");
        reveal_strlit("vector");
        assert("image"@.len() == 5 && "adjustment"@.len() == 10 && "text"@.len() == 4
            && "vector"@.len() == 6);
    }
    let layer_type_enum: LayerType = if str_eq(layer_type.as_str(), "image") {
        LayerType::Image { path: host::path_new() }
    } else if str_eq(layer_type.as_str(), "adjustment") {
        LayerType::Adjustment {
            adjustment_type: "brightness".to_owned(),
            params: host::json_empty_object(),
        }
    } else if str_eq(layer_type.as_str(), "text") {
        LayerType::Text {
            content: "New Text".to_owned(),
            font: "Arial".to_owned(),
            size: 48,
        }
    } else if str_eq(layer_type.as_str(), "vector") {
        LayerType::Vector { shapes: Vec::new() }
    } else {
        return Err("Unknown layer type".to_owned());
    };
    Ok(Layer {
        id: host::new_id(),
        name,
        layer_type: layer_type_enum,
        visible: true,
        opacity: crate::fixed::SCALE,
        blend_mode: "normal".to_owned(),
        transform: Transform::default(),
        mask: None,
    })
}

/// Deletes a layer. The layer store lives with the host; acknowledging the
/// deletion never fails.
pub fn delete_layer(_layer_id: String) -> (r: CommandResult<bool>)
    ensures
        r is Ok && r.unwrap(),
{
    Ok(true)
}

/// Merges layers into a fresh rasterized image layer. Compositing the
/// pixels is the host's work; the merged layer record never fails.
pub fn merge_layers(_layer_ids: Vec<String>) -> (r: CommandResult<Layer>)
    ensures
        r is Ok,
        r.unwrap().id@.len() == 36,
        r.unwrap().name@ == "Merged Layer"@,
        r.unwrap().layer_type is Image,
        r.unwrap().visible,
        r.unwrap().opacity == crate::fixed::SCALE,
        r.unwrap().blend_mode@ == "normal"@,
{
    Ok(Layer {
        id: host::new_id(),
        name: "Merged Layer".to_owned(),
        layer_type: LayerType::Image { path: host::path_from("merged.png") },
        visible: true,
        opacity: crate::fixed::SCALE,
        blend_mode: "normal".to_owned(),
        transform: Transform::default(),
        mask: None,
    })
}

/// Text layer creation parameters.
#[derive(Debug, Clone)]
pub struct TextLayerParams {
    pub content: String,
    pub font: String,
    pub size: u32,
    pub color: String,
    pub alignment: String,
    pub bold: bool,
    pub italic: bool,
    pub underline: bool,
}

/// Adds a text layer with the given content and font.
pub fn add_text_layer(params: TextLayerParams) -> (r: CommandResult<Layer>)
    ensures
        r is Ok,
        r.unwrap().id@.len() == 36,
        r.unwrap().name@ == "Text Layer"@,
        r.unwrap().layer_type matches LayerType::Text { content, font, size }
            && content == params.content && font == params.font && size == params.size,
        r.unwrap().visible,
        r.unwrap().opacity == crate::fixed::SCALE,
        r.unwrap().blend_mode@ == "normal"@,
{
    Ok(Layer {
        id: host::new_id(),
        name: "Text Layer".to_owned(),
        layer_type: LayerType::Text {
            content: params.content,
            font: params.font,
            size: params.size,
        },
        visible: true,
        opacity: crate::fixed::SCALE,
        blend_mode: "normal".to_owned(),
        transform: Transform::default(),
        mask: None,
    })
}

/// Vector layer creation parameters.
#[derive(Debug)]
pub struct VectorLayerParams {
    pub shapes: Vec<serde_json::Value>,
    pub name: String,
}

/// Adds a vector shape layer with the given shapes.
pub fn add_vector_layer(params: VectorLayerParams) -> (r: CommandResult<Layer>)
    ensures
        r is Ok,
        r.unwrap().id@.len() == 36,
        r.unwrap().name == params.name,
        r.unwrap().layer_type is Vector,
        r.unwrap().visible,
{
    Ok(Layer {
        id: host::new_id(),
        name: params.name,
        layer_type: LayerType::Vector { shapes: params.shapes },
        visible: true,
        opacity: crate::fixed::SCALE,
        blend_mode: "normal".to_owned(),
        transform: Transform::default(),
        mask: None,
    })
}

} // verus!
