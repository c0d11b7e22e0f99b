//! The flow data model.
//!
//! A flow file holds two documents: a header (application id, free-form tags)
//! and an ordered list of steps.  A step is a closed set of shapes; which
//! shape a document object takes is decided by the keys it carries.  Values of
//! these types are immutable once built; the flattener and the executor only
//! read them.

use vstd::prelude::*;

verus! {

/// Header document of a flow file.
#[allow(non_snake_case)]
#[derive(Debug, Clone, PartialEq)]
pub struct TestFileHeader {
    pub appId: Option<String>,
    pub tags: Option<Vec<String>>,
}

/// Steps document of a flow file: an ordered list of steps.
#[derive(Debug, Clone, PartialEq)]
pub struct StepFile(pub Vec<Step>);

/// One instruction of a flow.
///
/// The variants are listed in the order in which a document object is tried
/// against them; the first shape whose key is present wins.
#[allow(non_snake_case)]
#[derive(Debug, PartialEq)]
pub enum Step {
    RunFlow { runFlow: String },
    TapOn { tapOn: TapOn },
    RunScript { runScript: String },
    InputText { inputText: String },
    AssertVisible { assertVisible: String },
    AssertNotVisible { assertNotVisible: String },
    LaunchApp { launchApp: LaunchApp },
    Swipe { swipe: SwipeOptions },
}

/// Target of a tap step: a bare string (text, with a description fallback) or
/// a structured option set.
#[derive(Debug, PartialEq)]
pub enum TapOn {
    TapOnTextOrDescription(String),
    TapOnOption(TapOnOption),
}

/// Structured tap target.  Any combination of fields may be present; the
/// selector is chosen by a fixed precedence order over the present fields.
#[allow(non_snake_case)]
#[derive(Debug, PartialEq)]
pub struct TapOnOption {
    pub id: Option<String>,
    pub text: Option<String>,
    pub optional: Option<bool>,
    pub index: Option<u32>,
    pub instance: Option<u32>,
    pub className: Option<String>,
    pub description: Option<String>,
    pub hint: Option<String>,
}

/// Options of a swipe step: start and end position, each as a pair of screen
/// percentages.
#[derive(Debug, PartialEq)]
pub struct SwipeOptions {
    pub start: ScreenPercentages,
    pub end: ScreenPercentages,
}

/// A textual pair of screen percentages, as written in a flow document:
/// `"50, 20"`, with an optional `%` after each number.
#[derive(Debug, PartialEq)]
pub struct ScreenPercentages(pub String);

/// Options of a launch-app step.
#[allow(non_snake_case)]
#[derive(Debug, Clone, Copy, PartialEq)]
pub struct LaunchApp {
    pub clearState: bool,
}

/// Supported target platforms.
#[derive(Debug, Clone, Copy, PartialEq, Eq, Structural)]
pub enum Platform {
    Android,
    Ios,
    Flutter,
}

/// Actions shared between platform back ends.
#[derive(Debug, Clone, PartialEq)]
pub enum SharedAction {
    Pause { duration: u64 },
}

/// One extra capability entry handed to the backend session.
#[derive(Debug, Clone, PartialEq)]
pub struct CustomCapability {
    pub key: String,
    pub value: CustomCapabilityValue,
}

/// Value of a custom capability entry.
#[derive(Debug, Clone, PartialEq)]
pub enum CustomCapabilityValue {
    BooleanValue(bool),
    StringValue(String),
}

/// Backend session parameters read from a capability file.
#[derive(Debug, Clone, PartialEq)]
pub struct CapsFile {
    pub platform: Platform,
    pub app_path: String,
    pub full_reset: bool,
    pub platform_version: String,
    pub custom_caps: Option<Vec<CustomCapability>>,
}

impl Clone for ScreenPercentages {
    /// A clone carries the same percentage text.
    fn clone(&self) -> (r: Self)
        ensures
            r == *self,
    {
        ScreenPercentages(self.0.clone())
    }
}

impl Clone for SwipeOptions {
    /// A clone carries the same start and end positions.
    fn clone(&self) -> (r: Self)
        ensures
            r == *self,
    {
        SwipeOptions { start: self.start.clone(), end: self.end.clone() }
    }
}

impl Clone for TapOnOption {
    /// A clone carries the same option fields.
    fn clone(&self) -> (r: Self)
        ensures
            r == *self,
    {
        let r = TapOnOption {
            id: self.id.clone(),
            text: self.text.clone(),
            optional: self.optional.clone(),
            index: self.index.clone(),
            instance: self.instance.clone(),
            className: self.className.clone(),
            description: self.description.clone(),
            hint: self.hint.clone(),
        };
        r
    }
}

impl Clone for TapOn {
    /// A clone carries the same target.
    fn clone(&self) -> (r: Self)
        ensures
            r == *self,
    {
        match self {
            TapOn::TapOnTextOrDescription(s) => TapOn::TapOnTextOrDescription(s.clone()),
            TapOn::TapOnOption(o) => TapOn::TapOnOption(o.clone()),
        }
    }
}

impl Clone for Step {
    /// A clone carries the same instruction.
    fn clone(&self) -> (r: Self)
        ensures
            r == *self,
    {
        match self {
            Step::RunFlow { runFlow } => Step::RunFlow { runFlow: runFlow.clone() },
            Step::TapOn { tapOn } => Step::TapOn { tapOn: tapOn.clone() },
            Step::RunScript { runScript } => Step::RunScript { runScript: runScript.clone() },
            Step::InputText { inputText } => Step::InputText { inputText: inputText.clone() },
            Step::AssertVisible { assertVisible } => Step::AssertVisible {
                assertVisible: assertVisible.clone(),
            },
            Step::AssertNotVisible { assertNotVisible } => Step::AssertNotVisible {
                assertNotVisible: assertNotVisible.clone(),
            },
            Step::LaunchApp { launchApp } => Step::LaunchApp { launchApp: *launchApp },
            Step::Swipe { swipe } => Step::Swipe { swipe: swipe.clone() },
        }
    }
}

} // verus!
