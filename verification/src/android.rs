//! The Android step model: element steps with action lists.
//!
//! This is the second flow format the runner understands: each step either
//! names an element selector with a list of actions to perform on it, or
//! references another step file, which is inlined recursively by
//! [`android_transform_into_actions`].  Referenced files are looked up in an
//! [`AndroidFlowStore`] of already loaded files keyed by the path exactly as
//! written in the referencing step.

use vstd::prelude::*;
use vstd::seq_lib::*;
use vstd::set_lib::*;

use crate::flatten::FlattenError;
use crate::selector::AndroidElementSelector;

verus! {

/// One step of the Android model: a normal step, or a step-file reference.
#[derive(Debug, PartialEq)]
pub enum AndroidStep {
    AndroidNormalStep(AndroidNormalStep),
    AndroidStepFile { step_file: String },
}

/// A normal Android step.
#[derive(Debug, PartialEq)]
pub enum AndroidNormalStep {
    /// Perform the actions, in order, on the element the selector addresses.
    AndroidElementStep { selector: AndroidElementSelector, actions: Vec<AndroidAction> },
    /// Save a screenshot under the given file name.
    ScreenshotStep { take_screenshot: String },
    /// Write a log line.
    LogStep { log: String },
    /// Pause for the given number of milliseconds.
    Pause { pause: u64 },
}

/// An action performed on an addressed element.
#[derive(Debug, PartialEq)]
pub enum AndroidAction {
    AssertVisible,
    TapOn,
    ScrollUntilVisible,
    InsertData { data: String },
    Pause(u64),
}

/// One loaded Android step file: its path and its steps.
pub struct AndroidFlowEntry {
    pub path: String,
    pub steps: Vec<AndroidStep>,
}

/// A table of loaded Android step files, searched front to back by path.
pub struct AndroidFlowStore {
    pub entries: Vec<AndroidFlowEntry>,
}

impl Clone for AndroidAction {
    /// A clone performs the same action.
    fn clone(&self) -> (r: Self)
        ensures
            r == *self,
    {
        match self {
            AndroidAction::AssertVisible => AndroidAction::AssertVisible,
            AndroidAction::TapOn => AndroidAction::TapOn,
            AndroidAction::ScrollUntilVisible => AndroidAction::ScrollUntilVisible,
            AndroidAction::InsertData { data } => AndroidAction::InsertData { data: data.clone() },
            AndroidAction::Pause(ms) => AndroidAction::Pause(*ms),
        }
    }
}

/// Clones a list of actions.
fn clone_actions(actions: &Vec<AndroidAction>) -> (r: Vec<AndroidAction>)
    ensures
        r@ == actions@,
{
    let r = actions.clone();
    proof {
        assert(r@ =~= actions@);
    }
    r
}

/// Two normal steps describe the same instruction: equal in every field,
/// with action lists compared element for element.
pub open spec fn normal_eq(a: AndroidNormalStep, b: AndroidNormalStep) -> bool {
    match (a, b) {
        (
            AndroidNormalStep::AndroidElementStep { selector: s1, actions: a1 },
            AndroidNormalStep::AndroidElementStep { selector: s2, actions: a2 },
        ) => s1 == s2 && a1@ == a2@,
        (
            AndroidNormalStep::ScreenshotStep { take_screenshot: f1 },
            AndroidNormalStep::ScreenshotStep { take_screenshot: f2 },
        ) => f1 == f2,
        (AndroidNormalStep::LogStep { log: l1 }, AndroidNormalStep::LogStep { log: l2 }) => l1
            == l2,
        (AndroidNormalStep::Pause { pause: p1 }, AndroidNormalStep::Pause { pause: p2 }) => p1
            == p2,
        _ => false,
    }
}

impl Clone for AndroidNormalStep {
    /// A clone describes the same step.
    fn clone(&self) -> (r: Self)
        ensures
            normal_eq(*self, r),
    {
        match self {
            AndroidNormalStep::AndroidElementStep { selector, actions } =>
                AndroidNormalStep::AndroidElementStep {
                selector: selector.clone(),
                actions: clone_actions(actions),
            },
            AndroidNormalStep::ScreenshotStep { take_screenshot } =>
                AndroidNormalStep::ScreenshotStep { take_screenshot: take_screenshot.clone() },
            AndroidNormalStep::LogStep { log } => AndroidNormalStep::LogStep { log: log.clone() },
            AndroidNormalStep::Pause { pause } => AndroidNormalStep::Pause { pause: *pause },
        }
    }
}

/// The paths of the store's entries, in store order.
pub open spec fn android_store_paths(store: AndroidFlowStore) -> Seq<Seq<char>> {
    store.entries@.map_values(|e: AndroidFlowEntry| e.path@)
}

/// First-match lookup over the store entries, starting at entry `i`.
pub open spec fn android_lookup_from(
    entries: Seq<AndroidFlowEntry>,
    p: Seq<char>,
    i: int,
) -> Option<Seq<AndroidStep>>
    decreases entries.len() - i,
{
    if i < 0 || i >= entries.len() {
        None
    } else if entries[i].path@ == p {
        Some(entries[i].steps@)
    } else {
        android_lookup_from(entries, p, i + 1)
    }
}

/// First-match lookup of a path in the store.
pub open spec fn android_lookup(store: AndroidFlowStore, p: Seq<char>) -> Option<
    Seq<AndroidStep>,
> {
    android_lookup_from(store.entries@, p, 0)
}

/// Looks a path up in the store, returning the first entry's steps.
fn android_store_lookup<'a>(store: &'a AndroidFlowStore, p: &String) -> (r: Option<
    &'a Vec<AndroidStep>,
>)
    ensures
        match r {
            Some(v) => android_lookup(*store, p@) == Some(v@),
            None => android_lookup(*store, p@) is None,
        },
{
    let n = store.entries.len();
    let mut i: usize = 0;
    while i < n
        invariant
            i <= n,
            n == store.entries@.len(),
            android_lookup(*store, p@) == android_lookup_from(store.entries@, p@, i as int),
        decreases n - i,
    {
        if store.entries[i].path == *p {
            return Some(&store.entries[i].steps);
        }
        i = i + 1;
    }
    None
}

/// A lookup that succeeds found its path among the store's paths.
proof fn lemma_android_lookup_some_in_paths(entries: Seq<AndroidFlowEntry>, p: Seq<char>, i: int)
    requires
        0 <= i,
        android_lookup_from(entries, p, i) is Some,
    ensures
        entries.map_values(|e: AndroidFlowEntry| e.path@).contains(p),
    decreases entries.len() - i,
{
    if i < entries.len() {
        if entries[i].path@ == p {
            assert(entries.map_values(|e: AndroidFlowEntry| e.path@)[i] == p);
        } else {
            lemma_android_lookup_some_in_paths(entries, p, i + 1);
        }
    }
}

/// The chain of step files currently being inlined: no path repeats, and
/// every path names a store entry.
pub open spec fn android_wf_chain(chain: Seq<Seq<char>>, store: AndroidFlowStore) -> bool {
    &&& chain.no_duplicates()
    &&& forall|i: int|
        0 <= i < chain.len() ==> android_store_paths(store).contains(#[trigger] chain[i])
}

/// A well-formed chain cannot be longer than the store.
proof fn lemma_android_chain_bound(chain: Seq<Seq<char>>, store: AndroidFlowStore)
    requires
        android_wf_chain(chain, store),
    ensures
        chain.len() <= store.entries@.len(),
{
    let paths = android_store_paths(store);
    chain.unique_seq_to_set();
    paths.lemma_cardinality_of_set();
    assert(chain.to_set().subset_of(paths.to_set())) by {
        assert forall|x: Seq<char>| chain.to_set().contains(x) implies paths.to_set().contains(
            x,
        ) by {
            assert(chain.contains(x));
            assert(paths.contains(x));
        }
    }
    lemma_len_subset(chain.to_set(), paths.to_set());
}

/// The result of inlining, at the specification level.
pub enum SpecAndroidFlatten {
    Flat(Seq<AndroidNormalStep>),
    MissingFlow { path: Seq<char> },
    Cycle { path: Seq<char> },
}

/// What inlining the suffix of `steps` from `pos` on produces: normal steps
/// kept in order, each step-file reference replaced by its own inlined
/// contents.
pub open spec fn spec_android_transform_from(
    steps: Seq<AndroidStep>,
    pos: int,
    chain: Seq<Seq<char>>,
    store: AndroidFlowStore,
) -> SpecAndroidFlatten
    decreases store.entries@.len() - chain.len(), steps.len() - pos,
        when 0 <= pos && android_wf_chain(chain, store)
    via spec_android_transform_from_decreases
{
    if pos >= steps.len() {
        SpecAndroidFlatten::Flat(Seq::empty())
    } else {
        match steps[pos] {
            AndroidStep::AndroidNormalStep(n) => {
                match spec_android_transform_from(steps, pos + 1, chain, store) {
                    SpecAndroidFlatten::Flat(rs) => SpecAndroidFlatten::Flat(seq![n] + rs),
                    err => err,
                }
            },
            AndroidStep::AndroidStepFile { step_file } => {
                if chain.contains(step_file@) {
                    SpecAndroidFlatten::Cycle { path: step_file@ }
                } else {
                    match android_lookup(store, step_file@) {
                        None => SpecAndroidFlatten::MissingFlow { path: step_file@ },
                        Some(sub_steps) => {
                            let sub = spec_android_transform_from(
                                sub_steps,
                                0,
                                chain.push(step_file@),
                                store,
                            );
                            match sub {
                                SpecAndroidFlatten::Flat(ss) => {
                                    match spec_android_transform_from(
                                        steps,
                                        pos + 1,
                                        chain,
                                        store,
                                    ) {
                                        SpecAndroidFlatten::Flat(rs) => SpecAndroidFlatten::Flat(
                                            ss + rs,
                                        ),
                                        err => err,
                                    }
                                },
                                err => err,
                            }
                        },
                    }
                }
            },
        }
    }
}

#[via_fn]
proof fn spec_android_transform_from_decreases(
    steps: Seq<AndroidStep>,
    pos: int,
    chain: Seq<Seq<char>>,
    store: AndroidFlowStore,
) {
    if 0 <= pos && pos < steps.len() && android_wf_chain(chain, store) {
        lemma_android_chain_bound(chain, store);
        if let AndroidStep::AndroidStepFile { step_file } = steps[pos] {
            if !chain.contains(step_file@) && android_lookup(store, step_file@) is Some {
                lemma_android_lookup_some_in_paths(store.entries@, step_file@, 0);
                assert(chain.push(step_file@).no_duplicates()) by {
                    assert(forall|i: int| 0 <= i < chain.len() ==> chain[i] != step_file@);
                }
                assert(android_wf_chain(chain.push(step_file@), store)) by {
                    assert(forall|i: int|
                        0 <= i < chain.len() ==> android_store_paths(store).contains(
                            #[trigger] chain.push(step_file@)[i],
                        ));
                    assert(chain.push(step_file@)[chain.len() as int] == step_file@);
                }
                lemma_android_chain_bound(chain.push(step_file@), store);
            }
        }
    }
}

/// What inlining a whole step list produces.
pub open spec fn spec_android_transform(
    steps: Seq<AndroidStep>,
    store: AndroidFlowStore,
) -> SpecAndroidFlatten {
    spec_android_transform_from(steps, 0, Seq::empty(), store)
}

/// How an executable inlining result realises a specification result: the
/// inlined steps agree element for element.
pub open spec fn android_transform_matches(
    r: Result<Vec<AndroidNormalStep>, FlattenError>,
    s: SpecAndroidFlatten,
) -> bool {
    match (r, s) {
        (Result::Ok(out), SpecAndroidFlatten::Flat(ns)) => out@.len() == ns.len() && forall|
            i: int,
        | 0 <= i < ns.len() ==> normal_eq(ns[i], #[trigger] out@[i]),
        (
            Result::Err(FlattenError::MissingFlowFile(p)),
            SpecAndroidFlatten::MissingFlow { path },
        ) => p@ == path,
        (
            Result::Err(FlattenError::CyclicFlowReference(p)),
            SpecAndroidFlatten::Cycle { path },
        ) => p@ == path,
        _ => false,
    }
}

/// Tests whether the chain already holds a path.
fn android_chain_contains(chain: &Vec<String>, p: &String) -> (r: bool)
    ensures
        r == crate::flatten::str_views(chain@).contains(p@),
{
    let n = chain.len();
    let mut i: usize = 0;
    while i < n
        invariant
            i <= n,
            n == chain@.len(),
            forall|j: int| 0 <= j < i ==> crate::flatten::str_views(chain@)[j] != p@,
        decreases n - i,
    {
        if chain[i] == *p {
            proof {
                assert(crate::flatten::str_views(chain@)[i as int] == p@);
            }
            return true;
        }
        i = i + 1;
    }
    false
}

fn android_transform_from(
    steps: &Vec<AndroidStep>,
    pos: usize,
    chain: &Vec<String>,
    store: &AndroidFlowStore,
) -> (r: Result<Vec<AndroidNormalStep>, FlattenError>)
    requires
        android_wf_chain(crate::flatten::str_views(chain@), *store),
    ensures
        android_transform_matches(
            r,
            spec_android_transform_from(
                steps@,
                pos as int,
                crate::flatten::str_views(chain@),
                *store,
            ),
        ),
    decreases store.entries@.len() - chain@.len(), steps@.len() - pos,
{
    proof {
        lemma_android_chain_bound(crate::flatten::str_views(chain@), *store);
    }
    if pos >= steps.len() {
        return Ok(Vec::new());
    }
    match &steps[pos] {
        AndroidStep::AndroidNormalStep(n) => {
            let head = n.clone();
            match android_transform_from(steps, pos + 1, chain, store) {
                Err(e) => Err(e),
                Ok(mut rs) => {
                    let ghost rs0 = rs@;
                    let ghost rest_spec = spec_android_transform_from(
                        steps@,
                        pos + 1,
                        crate::flatten::str_views(chain@),
                        *store,
                    );
                    let mut out: Vec<AndroidNormalStep> = Vec::new();
                    out.push(head);
                    out.append(&mut rs);
                    proof {
                        let ns = seq![steps@[pos as int]->AndroidNormalStep_0]
                            + rest_spec->Flat_0;
                        assert forall|i: int| 0 <= i < ns.len() implies normal_eq(
                            ns[i],
                            #[trigger] out@[i],
                        ) by {
                            if i > 0 {
                                assert(out@[i] == rs0[i - 1]);
                                assert(normal_eq(rest_spec->Flat_0[i - 1], rs0[i - 1]));
                            }
                        }
                    }
                    Ok(out)
                },
            }
        },
        AndroidStep::AndroidStepFile { step_file } => {
            if android_chain_contains(chain, step_file) {
                return Err(FlattenError::CyclicFlowReference(step_file.clone()));
            }
            match android_store_lookup(store, step_file) {
                None => Err(FlattenError::MissingFlowFile(step_file.clone())),
                Some(sub_steps) => {
                    let mut new_chain = chain.clone();
                    new_chain.push(step_file.clone());
                    proof {
                        assert(new_chain@ =~= chain@.push(*step_file));
                        let old_views = crate::flatten::str_views(chain@);
                        assert(crate::flatten::str_views(new_chain@) =~= old_views.push(
                            step_file@,
                        ));
                        lemma_android_lookup_some_in_paths(store.entries@, step_file@, 0);
                        assert(old_views.push(step_file@).no_duplicates()) by {
                            assert(forall|i: int|
                                0 <= i < old_views.len() ==> old_views[i] != step_file@);
                        }
                        assert(android_wf_chain(crate::flatten::str_views(new_chain@), *store))
                            by {
                            assert(forall|i: int|
                                0 <= i < old_views.len() ==> android_store_paths(
                                    *store,
                                ).contains(#[trigger] old_views.push(step_file@)[i]));
                            assert(old_views.push(step_file@)[old_views.len() as int]
                                == step_file@);
                        }
                        lemma_android_chain_bound(
                            crate::flatten::str_views(new_chain@),
                            *store,
                        );
                    }
                    match android_transform_from(sub_steps, 0, &new_chain, store) {
                        Err(e) => Err(e),
                        Ok(mut ss) => {
                            match android_transform_from(steps, pos + 1, chain, store) {
                                Err(e) => Err(e),
                                Ok(mut rs) => {
                                    let ghost views = crate::flatten::str_views(chain@);
                                    let ghost sub_spec = spec_android_transform_from(
                                        android_lookup(*store, step_file@).unwrap(),
                                        0,
                                        views.push(step_file@),
                                        *store,
                                    );
                                    let ghost rest_spec = spec_android_transform_from(
                                        steps@,
                                        pos + 1,
                                        views,
                                        *store,
                                    );
                                    let ghost ss0 = ss@;
                                    let ghost rs0 = rs@;
                                    ss.append(&mut rs);
                                    proof {
                                        let ns = sub_spec->Flat_0 + rest_spec->Flat_0;
                                        assert forall|i: int| 0 <= i < ns.len() implies
                                            normal_eq(ns[i], #[trigger] ss@[i]) by {
                                            if i < ss0.len() {
                                                assert(ss@[i] == ss0[i]);
                                                assert(normal_eq(sub_spec->Flat_0[i], ss0[i]));
                                            } else {
                                                assert(ss@[i] == rs0[i - ss0.len()]);
                                                assert(normal_eq(
                                                    rest_spec->Flat_0[i - ss0.len()],
                                                    rs0[i - ss0.len()],
                                                ));
                                            }
                                        }
                                    }
                                    Ok(ss)
                                },
                            }
                        },
                    }
                },
            }
        },
    }
}

/// The step that asserts the element with this visible text is displayed.
pub open spec fn is_assert_visible_text_step(s: AndroidStep, t: String) -> bool {
    match s {
        AndroidStep::AndroidNormalStep(n) => match n {
            AndroidNormalStep::AndroidElementStep { selector, actions } => match selector {
                AndroidElementSelector::Text { text } => text == t && actions@ == seq![
                    AndroidAction::AssertVisible,
                ],
                _ => false,
            },
            _ => false,
        },
        _ => false,
    }
}

/// Wraps each visible text found by a screen scan into an assert-visible
/// element step on that text.
pub fn assert_visible_steps_from_texts(texts: Vec<String>) -> (r: Vec<AndroidStep>)
    ensures
        r@.len() == texts@.len(),
        forall|i: int|
            0 <= i < texts@.len() ==> is_assert_visible_text_step(#[trigger] r@[i], texts@[i]),
{
    let mut out: Vec<AndroidStep> = Vec::new();
    let n = texts.len();
    let mut texts = texts;
    let ghost all = texts@;
    let mut i: usize = 0;
    while i < n
        invariant
            i <= n,
            n == all.len(),
            texts@ == all.skip(i as int),
            out@.len() == i,
            forall|j: int| 0 <= j < i ==> is_assert_visible_text_step(#[trigger] out@[j], all[j]),
        decreases n - i,
    {
        let mut rest = texts.split_off(1);
        let text = match texts.pop() {
            Some(t) => t,
            None => {
                proof {
                    assert(false);
                }
                String::new()
            },
        };
        let mut actions: Vec<AndroidAction> = Vec::new();
        actions.push(AndroidAction::AssertVisible);
        proof {
            assert(actions@ =~= seq![AndroidAction::AssertVisible]);
            assert(rest@ =~= all.skip(i + 1));
        }
        out.push(
            AndroidStep::AndroidNormalStep(
                AndroidNormalStep::AndroidElementStep {
                    selector: AndroidElementSelector::Text { text },
                    actions,
                },
            ),
        );
        texts = rest;
        i = i + 1;
    }
    out
}

/// Inlines every step-file reference recursively, producing the linear list
/// of normal steps in document order.
pub fn android_transform_into_actions(
    steps: &Vec<AndroidStep>,
    store: &AndroidFlowStore,
) -> (r: Result<Vec<AndroidNormalStep>, FlattenError>)
    ensures
        android_transform_matches(r, spec_android_transform(steps@, *store)),
{
    let empty_chain: Vec<String> = Vec::new();
    proof {
        assert(crate::flatten::str_views(empty_chain@) =~= Seq::<Seq<char>>::empty());
    }
    android_transform_from(steps, 0, &empty_chain, store)
}

} // verus!
