//! The flow loader: from parsed documents to the step model.
//!
//! A flow file holds two documents: a header object and a list of step
//! objects.  The text itself is parsed by the caller into [`DocValue`]
//! trees — a plain representation of a document: scalars, lists, and maps in
//! document order.  This module holds the verified half of loading: deciding
//! which of the closed set of step shapes each document object takes, in a
//! fixed order, and rejecting anything that matches none of them.

use vstd::prelude::*;

use crate::flow::{
    LaunchApp, ScreenPercentages, Step, SwipeOptions, TapOn, TapOnOption, TestFileHeader,
};

verus! {

/// A plain document value: what the loader reads of a parsed document.
///
/// A document map is kept as its entries in document order; a map with a
/// non-string key, and any scalar the flow model has no use for (such as a
/// floating-point number), is represented as [`DocValue::Other`], which
/// matches no shape.
#[derive(Debug, PartialEq)]
pub enum DocValue {
    Null,
    Bool(bool),
    Int(i64),
    Str(String),
    List(Vec<DocValue>),
    Mapping(Vec<(String, DocValue)>),
    Other,
}

/// Why loading failed.
#[derive(Debug, Clone, Copy, PartialEq, Eq)]
pub enum LoadError {
    /// The file could not be read or parsed into documents at all.
    ParseError,
    /// A document is missing or does not match the expected shape.
    SchemaError,
}

/// First-match lookup of a key among map entries, starting at entry `i`.
pub open spec fn spec_map_get_from(
    entries: Seq<(String, DocValue)>,
    key: Seq<char>,
    i: int,
) -> Option<DocValue>
    decreases entries.len() - i,
{
    if i < 0 || i >= entries.len() {
        None
    } else if entries[i].0@ == key {
        Some(entries[i].1)
    } else {
        spec_map_get_from(entries, key, i + 1)
    }
}

/// First-match lookup of a key among map entries.
pub open spec fn spec_map_get(entries: Seq<(String, DocValue)>, key: Seq<char>) -> Option<
    DocValue,
> {
    spec_map_get_from(entries, key, 0)
}

/// Compares two string slices by content.
fn str_eq(a: &str, b: &str) -> (r: bool)
    ensures
        r == (a@ == b@),
{
    let owned_a = a.to_owned();
    let owned_b = b.to_owned();
    owned_a == owned_b
}

/// Looks a key up among map entries, returning the first entry's value.
fn map_get<'a>(entries: &'a Vec<(String, DocValue)>, key: &str) -> (r: Option<&'a DocValue>)
    ensures
        match r {
            Some(v) => spec_map_get(entries@, key@) == Some(*v),
            None => spec_map_get(entries@, key@) is None,
        },
{
    let n = entries.len();
    let mut i: usize = 0;
    while i < n
        invariant
            i <= n,
            n == entries@.len(),
            spec_map_get(entries@, key@) == spec_map_get_from(entries@, key@, i as int),
        decreases n - i,
    {
        if str_eq(entries[i].0.as_str(), key) {
            return Some(&entries[i].1);
        }
        i = i + 1;
    }
    None
}

/// A field that holds a string when present: absent, null, or a string.
pub open spec fn opt_str_field(v: Option<DocValue>) -> bool {
    match v {
        None => true,
        Some(DocValue::Null) => true,
        Some(DocValue::Str(_)) => true,
        _ => false,
    }
}

/// A field that holds a boolean when present.
pub open spec fn opt_bool_field(v: Option<DocValue>) -> bool {
    match v {
        None => true,
        Some(DocValue::Null) => true,
        Some(DocValue::Bool(_)) => true,
        _ => false,
    }
}

/// A field that holds a 32-bit unsigned number when present.
pub open spec fn opt_u32_field(v: Option<DocValue>) -> bool {
    match v {
        None => true,
        Some(DocValue::Null) => true,
        Some(DocValue::Int(n)) => 0 <= n <= u32::MAX,
        _ => false,
    }
}

/// How an optional string field relates to a decoded `Option<String>`.
pub open spec fn opt_str_matches(v: Option<DocValue>, o: Option<String>) -> bool {
    match v {
        Some(DocValue::Str(s)) => o matches Some(x) && x@ == s@,
        _ => o is None,
    }
}

/// How an optional boolean field relates to a decoded `Option<bool>`.
pub open spec fn opt_bool_matches(v: Option<DocValue>, o: Option<bool>) -> bool {
    match v {
        Some(DocValue::Bool(b)) => o == Some(b),
        _ => o is None,
    }
}

/// How an optional numeric field relates to a decoded `Option<u32>`.
pub open spec fn opt_u32_matches(v: Option<DocValue>, o: Option<u32>) -> bool {
    match v {
        Some(DocValue::Int(n)) => o matches Some(x) && x == n,
        _ => o is None,
    }
}

/// Reads an optional string field.
fn decode_opt_str(v: Option<&DocValue>) -> (r: Option<Option<String>>)
    ensures
        match r {
            Some(o) => opt_str_field(deref_opt(v)) && opt_str_matches(deref_opt(v), o),
            None => !opt_str_field(deref_opt(v)),
        },
{
    match v {
        None => Some(None),
        Some(DocValue::Null) => Some(None),
        Some(DocValue::Str(s)) => Some(Some(s.clone())),
        _ => None,
    }
}

/// Reads an optional boolean field.
fn decode_opt_bool(v: Option<&DocValue>) -> (r: Option<Option<bool>>)
    ensures
        match r {
            Some(o) => opt_bool_field(deref_opt(v)) && opt_bool_matches(deref_opt(v), o),
            None => !opt_bool_field(deref_opt(v)),
        },
{
    match v {
        None => Some(None),
        Some(DocValue::Null) => Some(None),
        Some(DocValue::Bool(b)) => Some(Some(*b)),
        _ => None,
    }
}

/// Reads an optional 32-bit number field.
fn decode_opt_u32(v: Option<&DocValue>) -> (r: Option<Option<u32>>)
    ensures
        match r {
            Some(o) => opt_u32_field(deref_opt(v)) && opt_u32_matches(deref_opt(v), o),
            None => !opt_u32_field(deref_opt(v)),
        },
{
    match v {
        None => Some(None),
        Some(DocValue::Null) => Some(None),
        Some(DocValue::Int(n)) => {
            if 0 <= *n && *n <= 0xffff_ffff {
                Some(Some(*n as u32))
            } else {
                None
            }
        },
        _ => None,
    }
}

/// The value behind an optional reference.
pub open spec fn deref_opt(v: Option<&DocValue>) -> Option<DocValue> {
    match v {
        None => None,
        Some(x) => Some(*x),
    }
}

/// A well-shaped header document: a map whose `appId` field, when present,
/// is a string, and whose `tags` field, when present, is a list of strings.
/// Other keys are ignored.
pub open spec fn header_ok(v: DocValue) -> bool {
    match v {
        DocValue::Mapping(entries) => {
            &&& opt_str_field(spec_map_get(entries@, "appId"@))
            &&& match spec_map_get(entries@, "tags"@) {
                None => true,
                Some(DocValue::Null) => true,
                Some(DocValue::List(l)) => forall|i: int|
                    0 <= i < l@.len() ==> #[trigger] l@[i] is Str,
                _ => false,
            }
        },
        _ => false,
    }
}

/// How a header document relates to its decoded form.
pub open spec fn header_matches(v: DocValue, h: TestFileHeader) -> bool {
    match v {
        DocValue::Mapping(entries) => {
            &&& opt_str_matches(spec_map_get(entries@, "appId"@), h.appId)
            &&& match spec_map_get(entries@, "tags"@) {
                Some(DocValue::List(l)) => h.tags matches Some(ts) && ts@.len() == l@.len()
                    && forall|i: int|
                    0 <= i < l@.len() ==> (#[trigger] l@[i] matches DocValue::Str(s) && ts@[i]@
                        == s@),
                _ => h.tags is None,
            }
        },
        _ => false,
    }
}

/// Decodes the header document.
pub fn decode_header(v: &DocValue) -> (r: Result<TestFileHeader, LoadError>)
    ensures
        match r {
            Ok(h) => header_ok(*v) && header_matches(*v, h),
            Err(e) => !header_ok(*v) && e == LoadError::SchemaError,
        },
{
    let entries = match v {
        DocValue::Mapping(entries) => entries,
        _ => {
            return Err(LoadError::SchemaError);
        },
    };
    let app_id = match decode_opt_str(map_get(entries, "appId")) {
        Some(o) => o,
        None => {
            return Err(LoadError::SchemaError);
        },
    };
    let tags = match map_get(entries, "tags") {
        None => None,
        Some(DocValue::Null) => None,
        Some(DocValue::List(l)) => {
            let n = l.len();
            let mut ts: Vec<String> = Vec::new();
            let mut i: usize = 0;
            while i < n
                invariant
                    i <= n,
                    n == l@.len(),
                    *v == DocValue::Mapping(*entries),
                    spec_map_get(entries@, "tags"@) == Some(DocValue::List(*l)),
                    opt_str_field(spec_map_get(entries@, "appId"@)),
                    ts@.len() == i,
                    forall|j: int|
                        0 <= j < i ==> (#[trigger] l@[j] matches DocValue::Str(s) && ts@[j]@
                            == s@),
                decreases n - i,
            {
                match &l[i] {
                    DocValue::Str(s) => {
                        ts.push(s.clone());
                    },
                    _ => {
                        return Err(LoadError::SchemaError);
                    },
                }
                i = i + 1;
            }
            Some(ts)
        },
        Some(_) => {
            return Err(LoadError::SchemaError);
        },
    };
    Ok(TestFileHeader { appId: app_id, tags })
}

/// A well-shaped structured tap target: a map whose known fields, when
/// present, have their expected types.  Other keys are ignored.
pub open spec fn tap_option_ok(entries: Seq<(String, DocValue)>) -> bool {
    &&& opt_str_field(spec_map_get(entries, "id"@))
    &&& opt_str_field(spec_map_get(entries, "text"@))
    &&& opt_bool_field(spec_map_get(entries, "optional"@))
    &&& opt_u32_field(spec_map_get(entries, "index"@))
    &&& opt_u32_field(spec_map_get(entries, "instance"@))
    &&& opt_str_field(spec_map_get(entries, "className"@))
    &&& opt_str_field(spec_map_get(entries, "description"@))
    &&& opt_str_field(spec_map_get(entries, "hint"@))
}

/// How a structured tap target relates to its decoded form.
pub open spec fn tap_option_matches(entries: Seq<(String, DocValue)>, o: TapOnOption) -> bool {
    &&& opt_str_matches(spec_map_get(entries, "id"@), o.id)
    &&& opt_str_matches(spec_map_get(entries, "text"@), o.text)
    &&& opt_bool_matches(spec_map_get(entries, "optional"@), o.optional)
    &&& opt_u32_matches(spec_map_get(entries, "index"@), o.index)
    &&& opt_u32_matches(spec_map_get(entries, "instance"@), o.instance)
    &&& opt_str_matches(spec_map_get(entries, "className"@), o.className)
    &&& opt_str_matches(spec_map_get(entries, "description"@), o.description)
    &&& opt_str_matches(spec_map_get(entries, "hint"@), o.hint)
}

/// A well-shaped tap target: a bare string, or a structured option map.
pub open spec fn tap_on_ok(v: DocValue) -> bool {
    match v {
        DocValue::Str(_) => true,
        DocValue::Mapping(entries) => tap_option_ok(entries@),
        _ => false,
    }
}

/// How a tap target relates to its decoded form.
pub open spec fn tap_on_matches(v: DocValue, t: TapOn) -> bool {
    match v {
        DocValue::Str(s) => t matches TapOn::TapOnTextOrDescription(x) && x@ == s@,
        DocValue::Mapping(entries) => t matches TapOn::TapOnOption(o) && tap_option_matches(
            entries@,
            o,
        ),
        _ => false,
    }
}

/// Decodes a tap target.
fn decode_tap_on(v: &DocValue) -> (r: Result<TapOn, LoadError>)
    ensures
        match r {
            Ok(t) => tap_on_ok(*v) && tap_on_matches(*v, t),
            Err(e) => !tap_on_ok(*v) && e == LoadError::SchemaError,
        },
{
    match v {
        DocValue::Str(s) => Ok(TapOn::TapOnTextOrDescription(s.clone())),
        DocValue::Mapping(entries) => {
            let id = match decode_opt_str(map_get(entries, "id")) {
                Some(o) => o,
                None => {
                    return Err(LoadError::SchemaError);
                },
            };
            let text = match decode_opt_str(map_get(entries, "text")) {
                Some(o) => o,
                None => {
                    return Err(LoadError::SchemaError);
                },
            };
            let optional = match decode_opt_bool(map_get(entries, "optional")) {
                Some(o) => o,
                None => {
                    return Err(LoadError::SchemaError);
                },
            };
            let index = match decode_opt_u32(map_get(entries, "index")) {
                Some(o) => o,
                None => {
                    return Err(LoadError::SchemaError);
                },
            };
            let instance = match decode_opt_u32(map_get(entries, "instance")) {
                Some(o) => o,
                None => {
                    return Err(LoadError::SchemaError);
                },
            };
            let class_name = match decode_opt_str(map_get(entries, "className")) {
                Some(o) => o,
                None => {
                    return Err(LoadError::SchemaError);
                },
            };
            let description = match decode_opt_str(map_get(entries, "description")) {
                Some(o) => o,
                None => {
                    return Err(LoadError::SchemaError);
                },
            };
            let hint = match decode_opt_str(map_get(entries, "hint")) {
                Some(o) => o,
                None => {
                    return Err(LoadError::SchemaError);
                },
            };
            Ok(
                TapOn::TapOnOption(
                    TapOnOption {
                        id,
                        text,
                        optional,
                        index,
                        instance,
                        className: class_name,
                        description,
                        hint,
                    },
                ),
            )
        },
        _ => Err(LoadError::SchemaError),
    }
}

/// The string payload of a map's field, when the field holds a string.
pub open spec fn str_shape(entries: Seq<(String, DocValue)>, key: Seq<char>) -> Option<
    Seq<char>,
> {
    match spec_map_get(entries, key) {
        Some(DocValue::Str(p)) => Some(p@),
        _ => None,
    }
}

/// The tap target of a step object, when it is well shaped.
pub open spec fn tap_on_shape(entries: Seq<(String, DocValue)>) -> Option<DocValue> {
    match spec_map_get(entries, "tapOn"@) {
        Some(t) => if tap_on_ok(t) {
            Some(t)
        } else {
            None
        },
        None => None,
    }
}

/// The `clearState` flag of a launch-app step object, when well shaped.
pub open spec fn launch_app_shape(entries: Seq<(String, DocValue)>) -> Option<bool> {
    match spec_map_get(entries, "launchApp"@) {
        Some(DocValue::Mapping(l)) => match spec_map_get(l@, "clearState"@) {
            Some(DocValue::Bool(b)) => Some(b),
            _ => None,
        },
        _ => None,
    }
}

/// The start and end texts of a swipe step object, when well shaped.
pub open spec fn swipe_shape(entries: Seq<(String, DocValue)>) -> Option<(Seq<char>, Seq<char>)> {
    match spec_map_get(entries, "swipe"@) {
        Some(DocValue::Mapping(l)) => match spec_map_get(l@, "start"@) {
            Some(DocValue::Str(st)) => match spec_map_get(l@, "end"@) {
                Some(DocValue::Str(en)) => Some((st@, en@)),
                _ => None,
            },
            _ => None,
        },
        _ => None,
    }
}

/// A well-shaped step document object: one of the closed set of step shapes
/// applies; see [`step_matches`] for the order in which they are tried.
pub open spec fn step_ok(v: DocValue) -> bool {
    match v {
        DocValue::Mapping(entries) => {
            ||| str_shape(entries@, "runFlow"@) is Some
            ||| tap_on_shape(entries@) is Some
            ||| str_shape(entries@, "runScript"@) is Some
            ||| str_shape(entries@, "inputText"@) is Some
            ||| str_shape(entries@, "assertVisible"@) is Some
            ||| str_shape(entries@, "assertNotVisible"@) is Some
            ||| launch_app_shape(entries@) is Some
            ||| swipe_shape(entries@) is Some
        },
        _ => false,
    }
}

/// How a step document object relates to its decoded step.  The shapes are
/// tried in this order: `runFlow`, `tapOn`, `runScript`, `inputText`,
/// `assertVisible`, `assertNotVisible`, `launchApp`, `swipe`; the first
/// shape that matches in full decides.
pub open spec fn step_matches(v: DocValue, s: Step) -> bool {
    match v {
        DocValue::Mapping(entries) => {
            let e = entries@;
            match str_shape(e, "runFlow"@) {
                Some(p) => s matches Step::RunFlow { runFlow } && runFlow@ == p,
                None => match tap_on_shape(e) {
                    Some(t) => s matches Step::TapOn { tapOn } && tap_on_matches(t, tapOn),
                    None => match str_shape(e, "runScript"@) {
                        Some(p) => s matches Step::RunScript { runScript } && runScript@ == p,
                        None => match str_shape(e, "inputText"@) {
                            Some(p) => s matches Step::InputText { inputText } && inputText@
                                == p,
                            None => match str_shape(e, "assertVisible"@) {
                                Some(p) => s matches Step::AssertVisible { assertVisible }
                                    && assertVisible@ == p,
                                None => match str_shape(e, "assertNotVisible"@) {
                                    Some(p) => s matches Step::AssertNotVisible {
                                        assertNotVisible,
                                    } && assertNotVisible@ == p,
                                    None => match launch_app_shape(e) {
                                        Some(b) => s == (Step::LaunchApp {
                                            launchApp: LaunchApp { clearState: b },
                                        }),
                                        None => match swipe_shape(e) {
                                            Some(p) => s matches Step::Swipe { swipe }
                                                && swipe.start.0@ == p.0 && swipe.end.0@
                                                == p.1,
                                            None => false,
                                        },
                                    },
                                },
                            },
                        },
                    },
                },
            }
        },
        _ => false,
    }
}

/// Decodes one step document object.
pub fn decode_step(v: &DocValue) -> (r: Result<Step, LoadError>)
    ensures
        match r {
            Ok(s) => step_ok(*v) && step_matches(*v, s),
            Err(e) => !step_ok(*v) && e == LoadError::SchemaError,
        },
{
    let entries = match v {
        DocValue::Mapping(entries) => entries,
        _ => {
            return Err(LoadError::SchemaError);
        },
    };
    if let Some(DocValue::Str(p)) = map_get(entries, "runFlow") {
        return Ok(Step::RunFlow { runFlow: p.clone() });
    }
    match map_get(entries, "tapOn") {
        Some(t) => {
            if let Ok(tap_on) = decode_tap_on(t) {
                return Ok(Step::TapOn { tapOn: tap_on });
            }
        },
        None => {},
    }
    if let Some(DocValue::Str(p)) = map_get(entries, "runScript") {
        return Ok(Step::RunScript { runScript: p.clone() });
    }
    if let Some(DocValue::Str(p)) = map_get(entries, "inputText") {
        return Ok(Step::InputText { inputText: p.clone() });
    }
    if let Some(DocValue::Str(p)) = map_get(entries, "assertVisible") {
        return Ok(Step::AssertVisible { assertVisible: p.clone() });
    }
    if let Some(DocValue::Str(p)) = map_get(entries, "assertNotVisible") {
        return Ok(Step::AssertNotVisible { assertNotVisible: p.clone() });
    }
    if let Some(DocValue::Mapping(l)) = map_get(entries, "launchApp") {
        if let Some(DocValue::Bool(b)) = map_get(l, "clearState") {
            return Ok(Step::LaunchApp { launchApp: LaunchApp { clearState: *b } });
        }
    }
    if let Some(DocValue::Mapping(l)) = map_get(entries, "swipe") {
        if let Some(DocValue::Str(st)) = map_get(l, "start") {
            if let Some(DocValue::Str(en)) = map_get(l, "end") {
                return Ok(
                    Step::Swipe {
                        swipe: SwipeOptions {
                            start: ScreenPercentages(st.clone()),
                            end: ScreenPercentages(en.clone()),
                        },
                    },
                );
            }
        }
    }
    Err(LoadError::SchemaError)
}

/// Every element of a list of step objects is well shaped.
pub open spec fn steps_all_ok(l: Seq<DocValue>) -> bool {
    forall|i: int| 0 <= i < l.len() ==> step_ok(#[trigger] l[i])
}

/// A well-shaped steps document: a list of well-shaped step objects.
pub open spec fn steps_ok(v: DocValue) -> bool {
    match v {
        DocValue::List(l) => steps_all_ok(l@),
        _ => false,
    }
}

/// How a steps document relates to its decoded steps.
pub open spec fn steps_match(v: DocValue, out: Seq<Step>) -> bool {
    match v {
        DocValue::List(l) => out.len() == l@.len() && forall|i: int|
            0 <= i < l@.len() ==> step_matches(#[trigger] l@[i], out[i]),
        _ => false,
    }
}

/// Decodes the steps document.
pub fn decode_steps(v: &DocValue) -> (r: Result<Vec<Step>, LoadError>)
    ensures
        match r {
            Ok(out) => steps_ok(*v) && steps_match(*v, out@),
            Err(e) => !steps_ok(*v) && e == LoadError::SchemaError,
        },
{
    let l = match v {
        DocValue::List(l) => l,
        _ => {
            return Err(LoadError::SchemaError);
        },
    };
    let n = l.len();
    let mut out: Vec<Step> = Vec::new();
    let mut i: usize = 0;
    while i < n
        invariant
            i <= n,
            n == l@.len(),
            *v == DocValue::List(*l),
            out@.len() == i,
            forall|j: int| 0 <= j < i ==> step_ok(#[trigger] l@[j]),
            forall|j: int| 0 <= j < i ==> step_matches(#[trigger] l@[j], out@[j]),
        decreases n - i,
    {
        match decode_step(&l[i]) {
            Ok(s) => {
                out.push(s);
            },
            Err(e) => {
                proof {
                    assert(!steps_all_ok(l@)) by {
                        assert(!(0 <= (i as int) && (i as int) < l@.len() ==> step_ok(
                            l@[i as int],
                        )));
                    }
                }
                return Err(e);
            },
        }
        i = i + 1;
    }
    Ok(out)
}

/// How the parsed documents of a flow file relate to a decoded header and
/// step list: the first document is the header, the second the steps, and
/// any further documents are ignored.
pub open spec fn test_file_matches(
    docs: Seq<DocValue>,
    h: TestFileHeader,
    steps: Seq<Step>,
) -> bool {
    &&& docs.len() >= 2
    &&& header_ok(docs[0]) && header_matches(docs[0], h)
    &&& steps_ok(docs[1]) && steps_match(docs[1], steps)
}

/// Parses a flow file's documents into its header and steps.
///
/// Fails with a schema error when a document is missing or either document
/// does not match its expected shape.
pub fn parse_test_file(docs: &Vec<DocValue>) -> (r: Result<(TestFileHeader, Vec<Step>), LoadError>)
    ensures
        match r {
            Ok(out) => test_file_matches(docs@, out.0, out.1@),
            Err(e) => {
                &&& e == LoadError::SchemaError
                &&& !(docs@.len() >= 2 && header_ok(docs@[0]) && steps_ok(docs@[1]))
            },
        },
{
    if docs.len() < 2 {
        return Err(LoadError::SchemaError);
    }
    let header = match decode_header(&docs[0]) {
        Ok(h) => h,
        Err(e) => {
            return Err(e);
        },
    };
    let steps = match decode_steps(&docs[1]) {
        Ok(s) => s,
        Err(e) => {
            return Err(e);
        },
    };
    Ok((header, steps))
}

} // verus!
