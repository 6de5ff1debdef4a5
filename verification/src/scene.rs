//! The scene-loading pipeline.
//!
//! A scene description is a JSON document with one top-level `entities`
//! array; each element may carry `model_path`, `gltf_path`, `texture_path`,
//! `transform` and `skybox` fields, every one optional. Parsing goes in two
//! steps: navigation pulls each entity's fields out of the document tree as
//! plain raw values — pinned, through the tree's named model, to exactly
//! what the document holds — and a validation step turns the raw fields
//! into a typed entity specification, applying the defaulting rules and
//! rejecting malformed fields. Any failure aborts the whole load: no
//! partial scene is ever produced.

use vstd::prelude::*;
use crate::cubemap::CubemapComponent;
use crate::decimal::{dec_fx_s, parse_decimal_fx};
use crate::ecs::{lemma_grown, Component, World};
use crate::fx::fx_ok;
use crate::json::{
    doc_of, json_array_get, json_array_len, json_as_number, json_as_str, json_get,
    json_is_object, json_model, json_number_bytes, json_parse, JsonNode,
};
use crate::mat::Vec3;
use crate::model::{Material, Model};
use crate::transform::{transform_ok, Transform};

verus! {

/// Why a scene description was rejected.
#[derive(Clone, Copy, Debug, PartialEq, Eq, Structural)]
pub enum SceneError {
    /// The text is not valid JSON.
    MalformedDocument,
    /// The document has no `entities` array.
    MissingEntities,
    /// A `transform` field is missing `position`, `rotation` or `scale`,
    /// or they have the wrong shape.
    BadTransform,
    /// A number field of a `transform` does not hold a representable
    /// number.
    BadNumber,
    /// A `skybox` field does not hold exactly six path strings.
    SkyboxFaceCount,
}

/// The raw content of a `transform` field, as navigation found it: each
/// part absent or present, each array element a number's text or not a
/// number.
pub struct RawTransform {
    pub position: Option<Vec<Option<Vec<u8>>>>,
    pub rotation: Option<Vec<Option<Vec<u8>>>>,
    pub scale: Option<Option<Vec<u8>>>,
}

/// The raw fields of one entity element, as navigation found them.
pub struct RawEntity {
    pub model_path: Option<String>,
    pub gltf_path: Option<String>,
    pub texture_path: Option<String>,
    pub transform: Option<RawTransform>,
    pub skybox: Option<Vec<Option<String>>>,
}

/// One validated entity specification.
pub struct EntitySpec {
    pub model_path: Option<String>,
    pub gltf_path: Option<String>,
    pub texture_path: Option<String>,
    pub transform: Option<Transform>,
    pub skybox: Option<Vec<String>>,
}

/// What validation guarantees of every entity specification it produces: a
/// six-path skybox, a texture exactly when there is geometry to put it on,
/// and a transform within the fixed-point range.
pub open spec fn entity_spec_ok(e: EntitySpec) -> bool {
    &&& (e.skybox matches Some(v) ==> v@.len() == 6)
    &&& (e.texture_path is Some <==> (e.model_path is Some || e.gltf_path is Some))
    &&& (e.transform matches Some(t) ==> transform_ok(t))
}

/// A validated scene description: the ordered entity specifications.
pub struct SceneDescription {
    pub entities: Vec<EntitySpec>,
}

/// Every entity specification of the description is valid.
pub open spec fn scene_desc_ok(d: SceneDescription) -> bool {
    forall|i: int| 0 <= i < d.entities@.len() ==> entity_spec_ok(#[trigger] d.entities@[i])
}

/// The raw content of a `transform` field in its abstract form, over
/// sequences of plain values.
pub struct RawTransformN {
    pub position: Option<Seq<Option<Seq<u8>>>>,
    pub rotation: Option<Seq<Option<Seq<u8>>>>,
    pub scale: Option<Option<Seq<u8>>>,
}

/// One entity's raw fields in their abstract form.
pub struct RawEntityN {
    pub model_path: Option<Seq<char>>,
    pub gltf_path: Option<Seq<char>>,
    pub texture_path: Option<Seq<char>>,
    pub transform: Option<RawTransformN>,
    pub skybox: Option<Seq<Option<Seq<char>>>>,
}

/// An optional byte buffer as its abstract content.
pub open spec fn opt_bytes_lift(o: Option<Vec<u8>>) -> Option<Seq<u8>> {
    match o {
        Some(b) => Some(b@),
        None => None,
    }
}

/// An optional string as its abstract content.
pub open spec fn opt_str_lift(o: Option<String>) -> Option<Seq<char>> {
    match o {
        Some(s) => Some(s@),
        None => None,
    }
}

/// A raw number array as its abstract content.
pub open spec fn texts_lift(v: Seq<Option<Vec<u8>>>) -> Seq<Option<Seq<u8>>> {
    Seq::new(v.len(), |i: int| opt_bytes_lift(v[i]))
}

/// A raw face array as its abstract content.
pub open spec fn faces_lift(v: Seq<Option<String>>) -> Seq<Option<Seq<char>>> {
    Seq::new(v.len(), |i: int| opt_str_lift(v[i]))
}

/// A string list as its abstract content.
pub open spec fn strings_lift(v: Seq<String>) -> Seq<Seq<char>> {
    Seq::new(v.len(), |i: int| v[i]@)
}

/// A raw transform as its abstract form.
pub open spec fn transform_lift(t: RawTransform) -> RawTransformN {
    RawTransformN {
        position: match t.position {
            Some(p) => Some(texts_lift(p@)),
            None => None,
        },
        rotation: match t.rotation {
            Some(p) => Some(texts_lift(p@)),
            None => None,
        },
        scale: match t.scale {
            Some(x) => Some(opt_bytes_lift(x)),
            None => None,
        },
    }
}

/// A raw entity as its abstract form.
pub open spec fn raw_lift(r: RawEntity) -> RawEntityN {
    RawEntityN {
        model_path: opt_str_lift(r.model_path),
        gltf_path: opt_str_lift(r.gltf_path),
        texture_path: opt_str_lift(r.texture_path),
        transform: match r.transform {
            Some(t) => Some(transform_lift(t)),
            None => None,
        },
        skybox: match r.skybox {
            Some(v) => Some(faces_lift(v@)),
            None => None,
        },
    }
}

/// The fixed-point value of one raw array element, when it was a number
/// whose text parses.
pub open spec fn text_fx(t: Option<Seq<u8>>) -> Option<i64> {
    match t {
        Some(b) => dec_fx_s(b),
        None => None,
    }
}

/// The first three elements of a raw number array as a vector, when all
/// three parse.
pub open spec fn vec3_from_texts_s(ts: Seq<Option<Seq<u8>>>) -> Option<Vec3> {
    if ts.len() >= 3 && text_fx(ts[0]) is Some && text_fx(ts[1]) is Some && text_fx(ts[2]) is Some {
        Some(
            Vec3 {
                x: text_fx(ts[0]).unwrap(),
                y: text_fx(ts[1]).unwrap(),
                z: text_fx(ts[2]).unwrap(),
            },
        )
    } else {
        None
    }
}

/// The raw transform has all three parts, with at least three position and
/// rotation entries.
pub open spec fn transform_shape_ok(t: RawTransformN) -> bool {
    &&& t.position matches Some(p) && p.len() >= 3
    &&& t.rotation matches Some(rr) && rr.len() >= 3
    &&& t.scale is Some
}

/// Every number of the raw transform parses (read only with the shape
/// established).
pub open spec fn transform_nums_ok(t: RawTransformN) -> bool {
    &&& vec3_from_texts_s(t.position.unwrap()) is Some
    &&& vec3_from_texts_s(t.rotation.unwrap()) is Some
    &&& text_fx(t.scale.unwrap()) is Some
}

/// The transform a valid raw transform denotes.
pub open spec fn transform_from_raw_s(t: RawTransformN) -> Transform {
    Transform {
        translation: vec3_from_texts_s(t.position.unwrap()).unwrap(),
        scale: text_fx(t.scale.unwrap()).unwrap(),
        rotation: vec3_from_texts_s(t.rotation.unwrap()).unwrap(),
    }
}

/// The string elements of a raw array, in order; anything that was not a
/// string is passed over.
pub open spec fn strings_of(s: Seq<Option<Seq<char>>>) -> Seq<Seq<char>>
    decreases s.len(),
{
    if s.len() == 0 {
        Seq::empty()
    } else {
        strings_of(s.drop_last()) + (match s.last() {
            Some(x) => seq![x],
            None => Seq::empty(),
        })
    }
}

/// The error a skybox field draws, if any: anything but exactly six path
/// strings is rejected.
pub open spec fn skybox_error_s(rn: RawEntityN) -> Option<SceneError> {
    match rn.skybox {
        Some(v) => if strings_of(v).len() != 6 {
            Some(SceneError::SkyboxFaceCount)
        } else {
            None
        },
        None => None,
    }
}

/// The error one entity's raw fields draw, if any: a malformed transform
/// shape first, then an unparseable transform number, then a bad skybox.
pub open spec fn entity_error_s(rn: RawEntityN) -> Option<SceneError> {
    match rn.transform {
        Some(t) => if !transform_shape_ok(t) {
            Some(SceneError::BadTransform)
        } else if !transform_nums_ok(t) {
            Some(SceneError::BadNumber)
        } else {
            skybox_error_s(rn)
        },
        None => skybox_error_s(rn),
    }
}

/// The raw entity passes validation.
pub open spec fn raw_entity_valid(rn: RawEntityN) -> bool {
    entity_error_s(rn) is None
}

/// The entity specification is the validated form of the raw fields: paths
/// carried over, the texture defaulted beside geometry and dropped without
/// it, the transform's numbers parsed, the skybox's six strings collected.
pub open spec fn entity_from_raw(e: EntitySpec, rn: RawEntityN) -> bool {
    &&& opt_str_lift(e.model_path) == rn.model_path
    &&& opt_str_lift(e.gltf_path) == rn.gltf_path
    &&& ((rn.model_path is Some || rn.gltf_path is Some) && rn.texture_path is Some
        ==> opt_str_lift(e.texture_path) == rn.texture_path)
    &&& ((rn.model_path is Some || rn.gltf_path is Some) && rn.texture_path is None
        ==> (e.texture_path matches Some(t) && t@ == "debug.png"@))
    &&& ((rn.model_path is None && rn.gltf_path is None) ==> e.texture_path is None)
    &&& e.transform == (match rn.transform {
        Some(t) => Some(transform_from_raw_s(t)),
        None => None::<Transform>,
    })
    &&& (match rn.skybox {
        Some(v) => e.skybox matches Some(sb) && strings_lift(sb@) == strings_of(v),
        None => e.skybox is None,
    })
}

/// A parsed fixed-point value lies inside the fixed-point range.
pub proof fn lemma_dec_fx_range(s: Seq<u8>)
    ensures
        dec_fx_s(s) matches Some(v) ==> fx_ok(v as int),
{
    if dec_fx_s(s) is Some {
        let n = s.len() as int;
        let neg = n > 0 && s[0] == 45u8;
        let i0: int = if neg {
            1
        } else {
            0
        };
        let i1 = crate::decimal::digit_run_end(s, i0);
        crate::decimal::lemma_run_end(s, i0);
        let has_frac = i1 < n && s[i1] == 46u8;
        let f0 = i1 + 1;
        let i2 = if has_frac {
            crate::decimal::digit_run_end(s, f0)
        } else {
            i1
        };
        if has_frac {
            crate::decimal::lemma_run_end(s, f0);
        }
        let has_exp = i2 < n && (s[i2] == 101u8 || s[i2] == 69u8);
        let e_signed = has_exp && i2 + 1 < n && (s[i2 + 1] == 43u8 || s[i2 + 1] == 45u8);
        let e0 = if e_signed {
            i2 + 2
        } else {
            i2 + 1
        };
        let i3 = if has_exp {
            crate::decimal::digit_run_end(s, e0)
        } else {
            i2
        };
        let fl: int = if has_frac {
            i2 - f0
        } else {
            0
        };
        let iv = crate::decimal::digits_val(s, i0, i1);
        let fv: int = if has_frac {
            crate::decimal::digits_val(s, f0, i2)
        } else {
            0
        };
        let m = iv * crate::decimal::pow10(fl as nat) + fv;
        crate::decimal::lemma_digits_val_bound(s, i0, i1);
        if has_frac {
            crate::decimal::lemma_digits_val_bound(s, f0, i2);
        }
        crate::decimal::lemma_pow10_pos(fl as nat);
        assert(iv * crate::decimal::pow10(fl as nat) >= 0) by (nonlinear_arith)
            requires
                iv >= 0,
                crate::decimal::pow10(fl as nat) >= 1;
        let ev: int = if has_exp {
            if has_exp && i2 + 1 < n && s[i2 + 1] == 45u8 {
                -crate::decimal::digits_val(s, e0, i3)
            } else {
                crate::decimal::digits_val(s, e0, i3)
            }
        } else {
            0
        };
        let shift = ev - fl + 6;
        if shift >= 0 {
            crate::decimal::lemma_pow10_pos(shift as nat);
            assert(m * crate::decimal::pow10(shift as nat) >= 0) by (nonlinear_arith)
                requires
                    m >= 0,
                    crate::decimal::pow10(shift as nat) >= 1;
        } else {
            crate::decimal::lemma_pow10_pos((-shift) as nat);
            vstd::arithmetic::div_mod::lemma_div_pos_is_pos(
                m,
                crate::decimal::pow10((-shift) as nat),
            );
        }
    }
}

/// Parse one element of a raw number array.
fn parse_text_at(v: &Vec<Option<Vec<u8>>>, i: usize) -> (r: Option<i64>)
    requires
        i < v@.len(),
    ensures
        r == text_fx(opt_bytes_lift(v@[i as int])),
        r matches Some(x) ==> fx_ok(x as int),
{
    proof {
        match v@[i as int] {
            Some(b) => lemma_dec_fx_range(b@),
            None => {},
        }
    }
    match &v[i] {
        Some(b) => parse_decimal_fx(b.as_slice()),
        None => None,
    }
}

/// Collect the string elements of a raw array, in order.
fn collect_strings(v: &Vec<Option<String>>) -> (r: Vec<String>)
    ensures
        strings_lift(r@) == strings_of(faces_lift(v@)),
        r@.len() == strings_of(faces_lift(v@)).len(),
{
    let mut out: Vec<String> = Vec::new();
    let mut i: usize = 0;
    proof {
        assert(strings_lift(out@) =~= strings_of(faces_lift(v@).subrange(0, 0)));
    }
    while i < v.len()
        invariant
            i <= v@.len(),
            strings_lift(out@) == strings_of(faces_lift(v@).subrange(0, i as int)),
        decreases v@.len() - i,
    {
        proof {
            assert(faces_lift(v@).subrange(0, i as int + 1).drop_last() =~= faces_lift(
                v@,
            ).subrange(0, i as int));
            assert(faces_lift(v@).subrange(0, i as int + 1).last() == opt_str_lift(
                v@[i as int],
            ));
        }
        match &v[i] {
            Some(s) => {
                out.push(s.clone());
                proof {
                    assert(strings_lift(out@) =~= strings_of(
                        faces_lift(v@).subrange(0, i as int + 1),
                    ));
                }
            },
            None => {
                proof {
                    assert(strings_of(faces_lift(v@).subrange(0, i as int + 1)) =~= strings_of(
                        faces_lift(v@).subrange(0, i as int),
                    ));
                }
            },
        }
        i = i + 1;
    }
    proof {
        assert(faces_lift(v@).subrange(0, v@.len() as int) =~= faces_lift(v@));
    }
    out
}

/// Validate one entity's raw fields: apply the texture defaulting rule,
/// parse the transform numbers, and require exactly six skybox paths. The
/// contract pins down the success condition, each failure's error, and
/// every field of the result.
pub fn validate_entity(raw: &RawEntity) -> (r: Result<EntitySpec, SceneError>)
    ensures
        r is Ok <==> raw_entity_valid(raw_lift(*raw)),
        r matches Ok(e) ==> entity_from_raw(e, raw_lift(*raw)) && entity_spec_ok(e),
        r matches Err(err) ==> entity_error_s(raw_lift(*raw)) == Some(err),
{
    let transform: Option<Transform> = match &raw.transform {
        None => None,
        Some(t) => {
            let pos = match &t.position {
                Some(p) => p,
                None => {
                    return Err(SceneError::BadTransform);
                },
            };
            let rot = match &t.rotation {
                Some(rr) => rr,
                None => {
                    return Err(SceneError::BadTransform);
                },
            };
            let scale_txt = match &t.scale {
                Some(s) => s,
                None => {
                    return Err(SceneError::BadTransform);
                },
            };
            if pos.len() < 3 || rot.len() < 3 {
                return Err(SceneError::BadTransform);
            }
            let x = match parse_text_at(pos, 0) {
                Some(v) => v,
                None => {
                    return Err(SceneError::BadNumber);
                },
            };
            let y = match parse_text_at(pos, 1) {
                Some(v) => v,
                None => {
                    return Err(SceneError::BadNumber);
                },
            };
            let z = match parse_text_at(pos, 2) {
                Some(v) => v,
                None => {
                    return Err(SceneError::BadNumber);
                },
            };
            let rx = match parse_text_at(rot, 0) {
                Some(v) => v,
                None => {
                    return Err(SceneError::BadNumber);
                },
            };
            let ry = match parse_text_at(rot, 1) {
                Some(v) => v,
                None => {
                    return Err(SceneError::BadNumber);
                },
            };
            let rz = match parse_text_at(rot, 2) {
                Some(v) => v,
                None => {
                    return Err(SceneError::BadNumber);
                },
            };
            let scale = match scale_txt {
                Some(b) => {
                    proof {
                        lemma_dec_fx_range(b@);
                    }
                    match parse_decimal_fx(b.as_slice()) {
                        Some(v) => v,
                        None => {
                            return Err(SceneError::BadNumber);
                        },
                    }
                },
                None => {
                    return Err(SceneError::BadNumber);
                },
            };
            Some(
                Transform {
                    translation: Vec3 { x, y, z },
                    scale,
                    rotation: Vec3 { x: rx, y: ry, z: rz },
                },
            )
        },
    };
    let skybox: Option<Vec<String>> = match &raw.skybox {
        None => None,
        Some(v) => {
            let strs = collect_strings(v);
            if strs.len() != 6 {
                return Err(SceneError::SkyboxFaceCount);
            }
            Some(strs)
        },
    };
    let has_geometry = raw.model_path.is_some() || raw.gltf_path.is_some();
    let texture_path: Option<String> = if has_geometry {
        match &raw.texture_path {
            Some(t) => Some(t.clone()),
            None => Some("debug.png".to_owned()),
        }
    } else {
        None
    };
    let model_path = match &raw.model_path {
        Some(s) => Some(s.clone()),
        None => None,
    };
    let gltf_path = match &raw.gltf_path {
        Some(s) => Some(s.clone()),
        None => None,
    };
    Ok(EntitySpec { model_path, gltf_path, texture_path, transform, skybox })
}

/// The node under a key, when the node is an object that has it.
pub open spec fn field_of(n: JsonNode, key: Seq<char>) -> Option<JsonNode> {
    match n {
        JsonNode::Object(m) => if m.contains_key(key) {
            Some(m[key])
        } else {
            None
        },
        _ => None,
    }
}

/// The string under a key, when the node is an object holding one there.
pub open spec fn string_field_of(n: JsonNode, key: Seq<char>) -> Option<Seq<char>> {
    match field_of(n, key) {
        Some(JsonNode::String(s)) => Some(s),
        _ => None,
    }
}

/// An array's elements as decimal texts: a number's text, or a gap where
/// an element is not a number.
pub open spec fn number_texts_of(a: Seq<JsonNode>) -> Seq<Option<Seq<u8>>> {
    Seq::new(
        a.len(),
        |i: int|
            match a[i] {
                JsonNode::Number(t) => Some(t),
                _ => None,
            },
    )
}

/// An array's elements as strings: the string content, or a gap where an
/// element is not a string.
pub open spec fn face_strings_of(a: Seq<JsonNode>) -> Seq<Option<Seq<char>>> {
    Seq::new(
        a.len(),
        |i: int|
            match a[i] {
                JsonNode::String(s) => Some(s),
                _ => None,
            },
    )
}

/// The raw form a `transform` node denotes: each part absent unless it is
/// there with the right outer shape.
pub open spec fn transform_node_of(n: JsonNode) -> RawTransformN {
    RawTransformN {
        position: match field_of(n, "position"@) {
            Some(JsonNode::Array(a)) => Some(number_texts_of(a)),
            _ => None,
        },
        rotation: match field_of(n, "rotation"@) {
            Some(JsonNode::Array(a)) => Some(number_texts_of(a)),
            _ => None,
        },
        scale: match field_of(n, "scale"@) {
            Some(f) => Some(
                match f {
                    JsonNode::Number(t) => Some(t),
                    _ => None,
                },
            ),
            None => None,
        },
    }
}

/// The raw fields one entity node denotes: a present `transform` that is
/// not an object reads as an empty shape, a present `skybox` that is not
/// an array as zero faces; both then fail validation.
pub open spec fn raw_node_of(n: JsonNode) -> RawEntityN {
    RawEntityN {
        model_path: string_field_of(n, "model_path"@),
        gltf_path: string_field_of(n, "gltf_path"@),
        texture_path: string_field_of(n, "texture_path"@),
        transform: match field_of(n, "transform"@) {
            Some(t) => Some(
                if t is Object {
                    transform_node_of(t)
                } else {
                    RawTransformN { position: None, rotation: None, scale: None }
                },
            ),
            None => None,
        },
        skybox: match field_of(n, "skybox"@) {
            Some(JsonNode::Array(a)) => Some(face_strings_of(a)),
            Some(_) => Some(Seq::empty()),
            None => None,
        },
    }
}

/// The document's `entities` array, when it has one.
pub open spec fn entities_of(doc: JsonNode) -> Option<Seq<JsonNode>> {
    match field_of(doc, "entities"@) {
        Some(JsonNode::Array(a)) => Some(a),
        _ => None,
    }
}

/// Pull the elements of a number array out as decimal texts; an element
/// that is not a number is kept as a gap, a value that is not an array
/// gives nothing.
fn extract_number_array(v: &serde_json::Value) -> (r: Option<Vec<Option<Vec<u8>>>>)
    ensures
        r matches Some(out) ==> json_model(*v) matches JsonNode::Array(a) && texts_lift(out@)
            == number_texts_of(a),
        r is None <==> !(json_model(*v) is Array),
{
    let len = match json_array_len(v) {
        Some(l) => l,
        None => {
            return None;
        },
    };
    let ghost a = json_model(*v)->Array_0;
    let mut out: Vec<Option<Vec<u8>>> = Vec::new();
    let mut i: usize = 0;
    while i < len
        invariant
            i <= len,
            json_model(*v) == JsonNode::Array(a),
            a.len() == len,
            out@.len() == i,
            forall|j: int| 0 <= j < i ==> opt_bytes_lift(out@[j]) == number_texts_of(a)[j],
        decreases len - i,
    {
        let element = match json_array_get(v, i) {
            Some(el) => match json_as_number(el) {
                Some(n) => Some(json_number_bytes(n)),
                None => None,
            },
            None => {
                proof {
                    assert(false);
                }
                None
            },
        };
        out.push(element);
        i = i + 1;
    }
    proof {
        assert(texts_lift(out@) =~= number_texts_of(a));
    }
    Some(out)
}

/// Pull a `transform` object's parts out as raw values.
fn extract_raw_transform(v: &serde_json::Value) -> (r: RawTransform)
    ensures
        transform_lift(r) == transform_node_of(json_model(*v)),
{
    let position = match json_get(v, "position") {
        Some(p) => extract_number_array(p),
        None => None,
    };
    let rotation = match json_get(v, "rotation") {
        Some(p) => extract_number_array(p),
        None => None,
    };
    let scale = match json_get(v, "scale") {
        Some(s) => match json_as_number(s) {
            Some(n) => Some(Some(json_number_bytes(n))),
            None => Some(None),
        },
        None => None,
    };
    RawTransform { position, rotation, scale }
}

/// Pull one string field out, treating a present non-string as absent.
fn extract_string_field(v: &serde_json::Value, key: &str) -> (r: Option<String>)
    ensures
        opt_str_lift(r) == string_field_of(json_model(*v), key@),
{
    match json_get(v, key) {
        Some(f) => match json_as_str(f) {
            Some(s) => Some(s.to_owned()),
            None => None,
        },
        None => None,
    }
}

/// Pull one entity element's raw fields out of the document tree.
fn extract_raw_entity(v: &serde_json::Value) -> (r: RawEntity)
    ensures
        raw_lift(r) == raw_node_of(json_model(*v)),
{
    let model_path = extract_string_field(v, "model_path");
    let gltf_path = extract_string_field(v, "gltf_path");
    let texture_path = extract_string_field(v, "texture_path");
    let transform = match json_get(v, "transform") {
        Some(t) => if json_is_object(t) {
            Some(extract_raw_transform(t))
        } else {
            // present but malformed: fails validation as an empty shape
            Some(RawTransform { position: None, rotation: None, scale: None })
        },
        None => None,
    };
    let skybox: Option<Vec<Option<String>>> = match json_get(v, "skybox") {
        Some(sb) => match json_array_len(sb) {
            Some(len) => {
                let ghost a = json_model(*sb)->Array_0;
                let mut faces: Vec<Option<String>> = Vec::new();
                let mut i: usize = 0;
                while i < len
                    invariant
                        i <= len,
                        json_model(*sb) == JsonNode::Array(a),
                        a.len() == len,
                        faces@.len() == i,
                        forall|j: int|
                            0 <= j < i ==> opt_str_lift(faces@[j]) == face_strings_of(a)[j],
                    decreases len - i,
                {
                    let face = match json_array_get(sb, i) {
                        Some(el) => match json_as_str(el) {
                            Some(s) => Some(s.to_owned()),
                            None => None,
                        },
                        None => {
                            proof {
                                assert(false);
                            }
                            None
                        },
                    };
                    faces.push(face);
                    i = i + 1;
                }
                proof {
                    assert(faces_lift(faces@) =~= face_strings_of(a));
                }
                Some(faces)
            },
            // present but not an array: fails validation as zero faces
            None => Some(Vec::new()),
        },
        None => None,
    };
    proof {
        assert(faces_lift(Seq::<Option<String>>::empty()) =~= Seq::<Option<Seq<char>>>::empty());
    }
    RawEntity { model_path, gltf_path, texture_path, transform, skybox }
}

/// Parse and validate a whole scene description from JSON text. The
/// contract follows the document: text that is not JSON is malformed, a
/// document without an `entities` array is missing them, and otherwise the
/// result is the validated form of every entity element in order — or the
/// first element's error, with everything before it valid.
pub fn parse_scene(text: &str) -> (r: Result<SceneDescription, SceneError>)
    ensures
        r == Err::<SceneDescription, SceneError>(SceneError::MalformedDocument) <==> doc_of(
            text@,
        ) is None,
        r == Err::<SceneDescription, SceneError>(SceneError::MissingEntities) <==> (doc_of(text@)
            matches Some(doc) && entities_of(doc) is None),
        r is Ok <==> (doc_of(text@) matches Some(doc) && entities_of(doc) matches Some(arr)
            && forall|i: int|
            0 <= i < arr.len() ==> entity_error_s(raw_node_of(#[trigger] arr[i])) is None),
        r matches Ok(d) ==> (doc_of(text@) matches Some(doc) && entities_of(doc) matches Some(arr)
            && d.entities@.len() == arr.len() && forall|i: int|
            0 <= i < arr.len() ==> entity_from_raw(
                #[trigger] d.entities@[i],
                raw_node_of(arr[i]),
            ) && entity_spec_ok(d.entities@[i])),
        r matches Err(e) ==> (e != SceneError::MalformedDocument && e
            != SceneError::MissingEntities ==> (doc_of(text@) matches Some(doc) && entities_of(
            doc,
        ) matches Some(arr)
            && exists|i: int|
            0 <= i < arr.len() && (forall|j: int|
                0 <= j < i ==> entity_error_s(raw_node_of(#[trigger] arr[j])) is None)
                && entity_error_s(raw_node_of(#[trigger] arr[i])) == Some(e))),
        r matches Ok(d) ==> scene_desc_ok(d),
{
    let doc = match json_parse(text) {
        Ok(d) => d,
        Err(_) => {
            return Err(SceneError::MalformedDocument);
        },
    };
    let ghost doc_n = json_model(doc);
    let entities_val = match json_get(&doc, "entities") {
        Some(e) => e,
        None => {
            return Err(SceneError::MissingEntities);
        },
    };
    let count = match json_array_len(entities_val) {
        Some(l) => l,
        None => {
            return Err(SceneError::MissingEntities);
        },
    };
    let ghost arr_n = json_model(*entities_val)->Array_0;
    let mut entities: Vec<EntitySpec> = Vec::new();
    let mut i: usize = 0;
    while i < count
        invariant
            i <= count,
            doc_of(text@) == Some(doc_n),
            entities_of(doc_n) == Some(arr_n),
            json_model(*entities_val) == JsonNode::Array(arr_n),
            arr_n.len() == count,
            entities@.len() == i,
            forall|j: int|
                0 <= j < i ==> entity_error_s(raw_node_of(#[trigger] arr_n[j])) is None,
            forall|j: int|
                0 <= j < i ==> entity_from_raw(
                    #[trigger] entities@[j],
                    raw_node_of(arr_n[j]),
                ) && entity_spec_ok(entities@[j]),
        decreases count - i,
    {
        let element = match json_array_get(entities_val, i) {
            Some(el) => el,
            None => {
                proof {
                    assert(false);
                }
                return Err(SceneError::MissingEntities);
            },
        };
        let raw = extract_raw_entity(element);
        let spec_entity = match validate_entity(&raw) {
            Ok(e) => e,
            Err(err) => {
                return Err(err);
            },
        };
        entities.push(spec_entity);
        i = i + 1;
    }
    Ok(SceneDescription { entities })
}

/// The GPU-backed assets the host loaded for one entity, aligned with its
/// specification: a decoded model for each geometry path, a material for
/// the texture, a cubemap for the skybox.
pub struct EntityAssets {
    pub model: Option<Model>,
    pub gltf_model: Option<Model>,
    pub material: Option<Material>,
    pub cubemap: Option<CubemapComponent>,
}

/// The model slot an entity ends with: the scene-graph model wins over the
/// triangle-mesh model when both paths are given, matching the order the
/// loader attaches them in.
pub open spec fn expected_model_slot(e: EntitySpec, a: EntityAssets) -> Option<Model> {
    if e.gltf_path is Some {
        a.gltf_model
    } else if e.model_path is Some {
        a.model
    } else {
        None
    }
}

/// The material slot an entity ends with.
pub open spec fn expected_material_slot(e: EntitySpec, a: EntityAssets) -> Option<Material> {
    if e.texture_path is Some {
        a.material
    } else {
        None
    }
}

/// The cubemap slot an entity ends with.
pub open spec fn expected_cubemap_slot(e: EntitySpec, a: EntityAssets) -> Option<CubemapComponent> {
    if e.skybox is Some {
        a.cubemap
    } else {
        None
    }
}

/// The entity's specification and assets put at least one component in the
/// store.
pub open spec fn entity_has_component(e: EntitySpec, a: EntityAssets) -> bool {
    ||| e.transform is Some
    ||| expected_model_slot(e, a) is Some
    ||| expected_material_slot(e, a) is Some
    ||| expected_cubemap_slot(e, a) is Some
}

/// Some entity of the description attaches some component.
pub open spec fn any_component(d: SceneDescription, assets: Seq<EntityAssets>) -> bool {
    exists|i: int|
        0 <= i < d.entities@.len() && entity_has_component(#[trigger] d.entities@[i], assets[i])
}

/// The assets line up with the description: one asset of each kind exactly
/// where the specification asks for one.
pub open spec fn assets_aligned(d: SceneDescription, assets: Seq<EntityAssets>) -> bool {
    &&& d.entities@.len() == assets.len()
    &&& forall|i: int|
        0 <= i < assets.len() ==> {
            &&& ((#[trigger] assets[i]).model is Some <==> d.entities@[i].model_path is Some)
            &&& (assets[i].gltf_model is Some <==> d.entities@[i].gltf_path is Some)
            &&& (assets[i].material is Some <==> d.entities@[i].texture_path is Some)
            &&& (assets[i].cubemap is Some <==> d.entities@[i].skybox is Some)
        }
}

/// No component sequence holds anything for entity `j` yet.
pub open spec fn entity_slots_absent(w: World, j: int) -> bool {
    &&& (j >= w.transforms_s().len() || w.transforms_s()[j] is None)
    &&& (j >= w.models_s().len() || w.models_s()[j] is None)
    &&& (j >= w.materials_s().len() || w.materials_s()[j] is None)
    &&& (j >= w.cubemaps_s().len() || w.cubemaps_s()[j] is None)
}

/// One entity's slots read as the description and assets say they should.
pub open spec fn entity_populated(w: World, i: int, e: EntitySpec, a: EntityAssets) -> bool {
    &&& (e.transform matches Some(t) ==> i < w.transforms_s().len() && w.transforms_s()[i]
        == Some(t))
    &&& (e.transform is None ==> (i >= w.transforms_s().len() || w.transforms_s()[i] is None))
    &&& (expected_model_slot(e, a) matches Some(m) ==> i < w.models_s().len() && w.models_s()[i]
        == Some(m))
    &&& (expected_model_slot(e, a) is None ==> (i >= w.models_s().len() || w.models_s()[i]
        is None))
    &&& (expected_material_slot(e, a) matches Some(m) ==> i < w.materials_s().len()
        && w.materials_s()[i] == Some(m))
    &&& (expected_material_slot(e, a) is None ==> (i >= w.materials_s().len()
        || w.materials_s()[i] is None))
    &&& (expected_cubemap_slot(e, a) matches Some(c) ==> i < w.cubemaps_s().len()
        && w.cubemaps_s()[i] == Some(c))
    &&& (expected_cubemap_slot(e, a) is None ==> (i >= w.cubemaps_s().len() || w.cubemaps_s()[i]
        is None))
}

/// Populate a store from a validated description and its loaded assets:
/// every entity is issued first, then each specification's components are
/// attached in order, so each attach grows every component sequence to
/// cover every issued entity. A store that received any component at all
/// has sequences exactly as long as the entity count.
pub fn build_world(desc: &SceneDescription, assets: Vec<EntityAssets>) -> (w: World)
    requires
        scene_desc_ok(*desc),
        assets_aligned(*desc, assets@),
        desc.entities@.len() < usize::MAX,
    ensures
        w.wf(),
        w.all_free_s(),
        w.count_s() == desc.entities@.len(),
        w.slot_len_s() == (if any_component(*desc, assets@) {
            desc.entities@.len() as nat
        } else {
            0nat
        }),
        forall|i: int|
            0 <= i < desc.entities@.len() ==> entity_populated(
                w,
                i,
                #[trigger] desc.entities@[i],
                assets@[i],
            ),
{
    broadcast use lemma_grown;

    let ghost assets0 = assets@;
    let n = desc.entities.len();
    let mut assets = assets;
    let mut world = World::new();
    let mut e: usize = 0;
    while e < n
        invariant
            e <= n,
            n < usize::MAX,
            world.wf(),
            world.all_free_s(),
            world.count_s() == e,
            world.slot_len_s() == 0,
            world.models_s().len() == 0,
            world.materials_s().len() == 0,
            world.cubemaps_s().len() == 0,
        decreases n - e,
    {
        let _issued = world.new_entity();
        e = e + 1;
    }
    let mut i: usize = 0;
    while i < n
        invariant
            i <= n,
            n == desc.entities@.len(),
            n < usize::MAX,
            scene_desc_ok(*desc),
            assets_aligned(*desc, assets0),
            assets@ == assets0.subrange(i as int, n as int),
            world.wf(),
            world.all_free_s(),
            world.count_s() == n,
            (forall|j: int|
                0 <= j < i ==> !entity_has_component(
                    #[trigger] desc.entities@[j],
                    assets0[j],
                )) ==> world.slot_len_s() == 0,
            (exists|j: int|
                0 <= j < i && entity_has_component(
                    #[trigger] desc.entities@[j],
                    assets0[j],
                )) ==> world.slot_len_s() == n,
            forall|j: int| i <= j < n ==> entity_slots_absent(world, j),
            forall|j: int|
                0 <= j < i ==> entity_populated(
                    world,
                    j,
                    #[trigger] desc.entities@[j],
                    assets0[j],
                ),
        decreases n - i,
    {
        let ghost w0 = world;
        let a = assets.remove(0);
        proof {
            assert(a == assets0[i as int]);
            assert(assets@ =~= assets0.subrange(i as int + 1, n as int));
        }
        let spec_e = &desc.entities[i];
        proof {
            assert(entity_spec_ok(desc.entities@[i as int]));
        }
        if let Some(m) = a.model {
            let _added = world.add_component_to_entity(i, Component::Model(m));
        }
        if let Some(m) = a.gltf_model {
            let _added = world.add_component_to_entity(i, Component::Model(m));
        }
        if let Some(m) = a.material {
            let _added = world.add_component_to_entity(i, Component::Material(m));
        }
        if let Some(t) = spec_e.transform {
            let _added = world.add_component_to_entity(i, Component::Transform(t));
        }
        if let Some(c) = a.cubemap {
            let _added = world.add_component_to_entity(i, Component::Cubemap(c));
        }
        proof {
            assert forall|j: int| i + 1 <= j < n implies entity_slots_absent(world, j) by {
                assert(entity_slots_absent(w0, j));
            }
            assert forall|j: int| 0 <= j < i + 1 implies entity_populated(
                world,
                j,
                #[trigger] desc.entities@[j],
                assets0[j],
            ) by {
                if j < i {
                    assert(entity_populated(w0, j, desc.entities@[j], assets0[j]));
                } else {
                    assert(entity_slots_absent(w0, i as int));
                }
            }
        }
        i = i + 1;
    }
    world
}

} // verus!
