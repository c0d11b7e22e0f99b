//! The selector resolver.
//!
//! A step's abstract element selector is translated into exactly one concrete
//! backend query expression.  The mapping is pure and total: the same
//! selector value always yields the same query text, which keeps reports and
//! tests reproducible.

use vstd::prelude::*;

use crate::flow::TapOnOption;
use crate::strutil::{spec_u64_string, u64_to_string};

verus! {

/// An element selector for the Android backend.
///
/// The variants mirror the addressing modes the backend understands: visible
/// text, resource id (optionally with an occurrence index), accessibility
/// label, content description, class name (optionally with an instance),
/// editable-field hint, absolute index, or a raw XPath.
#[allow(non_snake_case)]
#[derive(Debug, PartialEq)]
pub enum AndroidElementSelector {
    Hint { hint: String },
    AccessibilityId { accessibilityId: String },
    Text { text: String },
    Xpath { xpath: String },
    ClassName { className: String, instance: Option<u32> },
    Id { id: String },
    IdWithIndex { id: String, index: u32 },
    Description { description: String },
    Index { index: u32 },
}

/// An element selector for the iOS backend.
#[derive(Debug, PartialEq)]
pub enum IosElementSelector {
    Xpath(String),
    ClassName(String),
}

/// A concrete backend query: the locator strategy and its expression text.
#[derive(Debug, PartialEq)]
pub enum BackendQuery {
    AccessibilityId(String),
    Xpath(String),
    UiAutomator(String),
    ClassName(String),
}

/// The mathematical shape of a backend query: strategy plus expression text.
#[verifier::ext_equal]
pub enum QueryView {
    AccessibilityId(Seq<char>),
    Xpath(Seq<char>),
    UiAutomator(Seq<char>),
    ClassName(Seq<char>),
}

impl Clone for BackendQuery {
    /// A clone addresses the same query.
    fn clone(&self) -> (r: Self)
        ensures
            r == *self,
    {
        match self {
            BackendQuery::AccessibilityId(s) => BackendQuery::AccessibilityId(s.clone()),
            BackendQuery::Xpath(s) => BackendQuery::Xpath(s.clone()),
            BackendQuery::UiAutomator(s) => BackendQuery::UiAutomator(s.clone()),
            BackendQuery::ClassName(s) => BackendQuery::ClassName(s.clone()),
        }
    }
}

impl View for BackendQuery {
    type V = QueryView;

    open spec fn view(&self) -> QueryView {
        match self {
            BackendQuery::AccessibilityId(s) => QueryView::AccessibilityId(s@),
            BackendQuery::Xpath(s) => QueryView::Xpath(s@),
            BackendQuery::UiAutomator(s) => QueryView::UiAutomator(s@),
            BackendQuery::ClassName(s) => QueryView::ClassName(s@),
        }
    }
}

/// The query an Android selector resolves to.
pub open spec fn spec_android_query(s: AndroidElementSelector) -> QueryView {
    match s {
        AndroidElementSelector::Index { index } => QueryView::UiAutomator(
            "new UiSelector().index("@ + spec_u64_string(index as nat) + ");"@,
        ),
        AndroidElementSelector::AccessibilityId { accessibilityId } => QueryView::AccessibilityId(
            accessibilityId@,
        ),
        AndroidElementSelector::Xpath { xpath } => QueryView::Xpath(xpath@),
        AndroidElementSelector::Text { text } => QueryView::UiAutomator(
            "new UiSelector().textMatches(\""@ + text@ + "\");"@,
        ),
        AndroidElementSelector::Description { description } => QueryView::UiAutomator(
            "new UiSelector().descriptionMatches(\""@ + description@ + "\");"@,
        ),
        AndroidElementSelector::Hint { hint } => QueryView::Xpath(
            "//android.widget.EditText[@hint=\""@ + hint@ + "\"]"@,
        ),
        AndroidElementSelector::IdWithIndex { id, index } => QueryView::UiAutomator(
            "new UiSelector().resourceIdMatches(\""@ + id@ + "\").index("@ + spec_u64_string(
                index as nat,
            ) + ");"@,
        ),
        AndroidElementSelector::Id { id } => QueryView::UiAutomator(
            "new UiSelector().resourceIdMatches(\""@ + id@ + "\");"@,
        ),
        AndroidElementSelector::ClassName { className, instance } => match instance {
            Some(i) => QueryView::UiAutomator(
                "new UiSelector().className("@ + className@ + ").instance("@ + spec_u64_string(
                    i as nat,
                ) + ")"@,
            ),
            None => QueryView::UiAutomator("new UiSelector().className("@ + className@ + ")"@),
        },
    }
}

/// Resolves an Android selector into its backend query.
pub fn get_android_element_by(selector: AndroidElementSelector) -> (r: BackendQuery)
    ensures
        r@ == spec_android_query(selector),
{
    let ghost g = selector;
    match selector {
        AndroidElementSelector::Index { index } => {
            let mut s = String::from_str("new UiSelector().index(");
            s.append(u64_to_string(index as u64).as_str());
            s.append(");");
            proof {
                assert(s@ =~= spec_android_query(g)->UiAutomator_0);
            }
            BackendQuery::UiAutomator(s)
        },
        AndroidElementSelector::AccessibilityId { accessibilityId } => {
            BackendQuery::AccessibilityId(accessibilityId)
        },
        AndroidElementSelector::Xpath { xpath } => BackendQuery::Xpath(xpath),
        AndroidElementSelector::Text { text } => {
            let mut s = String::from_str("new UiSelector().textMatches(\"");
            s.append(text.as_str());
            s.append("\");");
            proof {
                assert(s@ =~= spec_android_query(g)->UiAutomator_0);
            }
            BackendQuery::UiAutomator(s)
        },
        AndroidElementSelector::Description { description } => {
            let mut s = String::from_str("new UiSelector().descriptionMatches(\"");
            s.append(description.as_str());
            s.append("\");");
            proof {
                assert(s@ =~= spec_android_query(g)->UiAutomator_0);
            }
            BackendQuery::UiAutomator(s)
        },
        AndroidElementSelector::Hint { hint } => {
            let mut s = String::from_str("//android.widget.EditText[@hint=\"");
            s.append(hint.as_str());
            s.append("\"]");
            proof {
                assert(s@ =~= spec_android_query(g)->Xpath_0);
            }
            BackendQuery::Xpath(s)
        },
        AndroidElementSelector::IdWithIndex { id, index } => {
            let mut s = String::from_str("new UiSelector().resourceIdMatches(\"");
            s.append(id.as_str());
            s.append("\").index(");
            s.append(u64_to_string(index as u64).as_str());
            s.append(");");
            proof {
                assert(s@ =~= spec_android_query(g)->UiAutomator_0);
            }
            BackendQuery::UiAutomator(s)
        },
        AndroidElementSelector::Id { id } => {
            let mut s = String::from_str("new UiSelector().resourceIdMatches(\"");
            s.append(id.as_str());
            s.append("\");");
            proof {
                assert(s@ =~= spec_android_query(g)->UiAutomator_0);
            }
            BackendQuery::UiAutomator(s)
        },
        AndroidElementSelector::ClassName { className, instance } => {
            match instance {
                Some(i) => {
                    let mut s = String::from_str("new UiSelector().className(");
                    s.append(className.as_str());
                    s.append(").instance(");
                    s.append(u64_to_string(i as u64).as_str());
                    s.append(")");
                    proof {
                        assert(s@ =~= spec_android_query(g)->UiAutomator_0);
                    }
                    BackendQuery::UiAutomator(s)
                },
                None => {
                    let mut s = String::from_str("new UiSelector().className(");
                    s.append(className.as_str());
                    s.append(")");
                    proof {
                        assert(s@ =~= spec_android_query(g)->UiAutomator_0);
                    }
                    BackendQuery::UiAutomator(s)
                },
            }
        },
    }
}

/// The query an iOS selector resolves to.
pub open spec fn spec_ios_query(s: IosElementSelector) -> QueryView {
    match s {
        IosElementSelector::Xpath(xpath) => QueryView::Xpath(xpath@),
        IosElementSelector::ClassName(class_name) => QueryView::ClassName(class_name@),
    }
}

/// Resolves an iOS selector into its backend query.
pub fn get_ios_element_by(selector: IosElementSelector) -> (r: BackendQuery)
    ensures
        r@ == spec_ios_query(selector),
{
    match selector {
        IosElementSelector::Xpath(xpath) => BackendQuery::Xpath(xpath),
        IosElementSelector::ClassName(class_name) => BackendQuery::ClassName(class_name),
    }
}

/// The selector a structured tap target resolves to, by field precedence:
/// id (with its index when both are present), then index, description, class
/// name (with its instance when present), hint, and finally text.  A target
/// with the `optional` flag, or with none of the addressable fields, is not
/// supported and resolves to nothing.
pub open spec fn spec_tap_option_selector(o: TapOnOption) -> Option<AndroidElementSelector> {
    if o.optional is Some {
        None
    } else {
        match o.id {
            Some(id) => match o.index {
                Some(index) => Some(AndroidElementSelector::IdWithIndex { id, index }),
                None => Some(AndroidElementSelector::Id { id }),
            },
            None => match o.index {
                Some(index) => Some(AndroidElementSelector::Index { index }),
                None => match o.description {
                    Some(description) => Some(
                        AndroidElementSelector::Description { description },
                    ),
                    None => match o.className {
                        Some(className) => Some(
                            AndroidElementSelector::ClassName {
                                className,
                                instance: o.instance,
                            },
                        ),
                        None => match o.hint {
                            Some(hint) => Some(AndroidElementSelector::Hint { hint }),
                            None => match o.text {
                                Some(text) => Some(AndroidElementSelector::Text { text }),
                                None => None,
                            },
                        },
                    },
                },
            },
        }
    }
}

/// Chooses the selector for a structured tap target, by field precedence.
pub fn selector_for_tap_option(o: &TapOnOption) -> (r: Option<AndroidElementSelector>)
    ensures
        r == spec_tap_option_selector(*o),
{
    if o.optional.is_some() {
        None
    } else if let Some(id) = &o.id {
        match o.index {
            Some(index) => Some(AndroidElementSelector::IdWithIndex { id: id.clone(), index }),
            None => Some(AndroidElementSelector::Id { id: id.clone() }),
        }
    } else if let Some(index) = o.index {
        Some(AndroidElementSelector::Index { index })
    } else if let Some(description) = &o.description {
        Some(AndroidElementSelector::Description { description: description.clone() })
    } else if let Some(class_name) = &o.className {
        Some(
            AndroidElementSelector::ClassName {
                className: class_name.clone(),
                instance: o.instance,
            },
        )
    } else if let Some(hint) = &o.hint {
        Some(AndroidElementSelector::Hint { hint: hint.clone() })
    } else if let Some(text) = &o.text {
        Some(AndroidElementSelector::Text { text: text.clone() })
    } else {
        None
    }
}

/// Law: selector resolution is deterministic and pure.  Resolving equal
/// selector values yields identical backend queries.
pub proof fn lemma_selector_resolution_deterministic(
    a: AndroidElementSelector,
    b: AndroidElementSelector,
)
    requires
        a == b,
    ensures
        spec_android_query(a) == spec_android_query(b),
{
}

impl Clone for AndroidElementSelector {
    /// A clone addresses the same element.
    fn clone(&self) -> (r: Self)
        ensures
            r == *self,
    {
        match self {
            AndroidElementSelector::Hint { hint } => AndroidElementSelector::Hint {
                hint: hint.clone(),
            },
            AndroidElementSelector::AccessibilityId { accessibilityId } =>
                AndroidElementSelector::AccessibilityId {
                accessibilityId: accessibilityId.clone(),
            },
            AndroidElementSelector::Text { text } => AndroidElementSelector::Text {
                text: text.clone(),
            },
            AndroidElementSelector::Xpath { xpath } => AndroidElementSelector::Xpath {
                xpath: xpath.clone(),
            },
            AndroidElementSelector::ClassName { className, instance } =>
                AndroidElementSelector::ClassName {
                className: className.clone(),
                instance: *instance,
            },
            AndroidElementSelector::Id { id } => AndroidElementSelector::Id { id: id.clone() },
            AndroidElementSelector::IdWithIndex { id, index } =>
                AndroidElementSelector::IdWithIndex { id: id.clone(), index: *index },
            AndroidElementSelector::Description { description } =>
                AndroidElementSelector::Description { description: description.clone() },
            AndroidElementSelector::Index { index } => AndroidElementSelector::Index {
                index: *index,
            },
        }
    }
}

} // verus!
