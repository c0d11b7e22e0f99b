//! The iOS step model: element steps with action lists.
//!
//! The iOS counterpart of the Android step model: each step either names an
//! element selector with a list of actions, or references another step file,
//! inlined recursively by [`ios_transform_into_actions`] against a store of
//! already loaded files.

use vstd::prelude::*;
use vstd::seq_lib::*;
use vstd::set_lib::*;

use crate::flatten::{str_views, FlattenError};
use crate::selector::IosElementSelector;

verus! {

/// An action performed on an addressed element.
#[derive(Debug, PartialEq)]
pub enum IosAction {
    AssertVisible,
    TapOn,
    ScrollUntilVisible,
    InsertData { data: String },
    Pause(u64),
}

/// One step of the iOS model: a normal step, or a step-file reference.
#[derive(Debug, PartialEq)]
pub enum IosStep {
    IosNormalStep(IosNormalStep),
    IosStepFile { step_file: String },
}

/// A normal iOS step.
#[derive(Debug, PartialEq)]
pub enum IosNormalStep {
    /// Perform the actions, in order, on the element the selector addresses.
    IosElementStep { selector: IosElementSelector, actions: Vec<IosAction> },
    /// Save a screenshot under the given file name.
    ScreenshotStep { take_screenshot: String },
    /// Write a log line.
    LogStep { log: String },
    /// Pause for the given number of milliseconds.
    Pause { pause: u64 },
}

/// One loaded iOS step file: its path and its steps.
pub struct IosFlowEntry {
    pub path: String,
    pub steps: Vec<IosStep>,
}

/// A table of loaded iOS step files, searched front to back by path.
pub struct IosFlowStore {
    pub entries: Vec<IosFlowEntry>,
}

impl Clone for IosAction {
    /// A clone performs the same action.
    fn clone(&self) -> (r: Self)
        ensures
            r == *self,
    {
        match self {
            IosAction::AssertVisible => IosAction::AssertVisible,
            IosAction::TapOn => IosAction::TapOn,
            IosAction::ScrollUntilVisible => IosAction::ScrollUntilVisible,
            IosAction::InsertData { data } => IosAction::InsertData { data: data.clone() },
            IosAction::Pause(ms) => IosAction::Pause(*ms),
        }
    }
}

impl Clone for IosElementSelector {
    /// A clone addresses the same element.
    fn clone(&self) -> (r: Self)
        ensures
            r == *self,
    {
        match self {
            IosElementSelector::Xpath(x) => IosElementSelector::Xpath(x.clone()),
            IosElementSelector::ClassName(c) => IosElementSelector::ClassName(c.clone()),
        }
    }
}

/// Clones a list of actions.
fn clone_ios_actions(actions: &Vec<IosAction>) -> (r: Vec<IosAction>)
    ensures
        r@ == actions@,
{
    let r = actions.clone();
    proof {
        assert(r@ =~= actions@);
    }
    r
}

/// Two normal steps describe the same instruction: equal in every field,
/// with action lists compared element for element.
pub open spec fn ios_normal_eq(a: IosNormalStep, b: IosNormalStep) -> bool {
    match (a, b) {
        (
            IosNormalStep::IosElementStep { selector: s1, actions: a1 },
            IosNormalStep::IosElementStep { selector: s2, actions: a2 },
        ) => s1 == s2 && a1@ == a2@,
        (
            IosNormalStep::ScreenshotStep { take_screenshot: f1 },
            IosNormalStep::ScreenshotStep { take_screenshot: f2 },
        ) => f1 == f2,
        (IosNormalStep::LogStep { log: l1 }, IosNormalStep::LogStep { log: l2 }) => l1 == l2,
        (IosNormalStep::Pause { pause: p1 }, IosNormalStep::Pause { pause: p2 }) => p1 == p2,
        _ => false,
    }
}

impl Clone for IosNormalStep {
    /// A clone describes the same step.
    fn clone(&self) -> (r: Self)
        ensures
            ios_normal_eq(*self, r),
    {
        match self {
            IosNormalStep::IosElementStep { selector, actions } => IosNormalStep::IosElementStep {
                selector: selector.clone(),
                actions: clone_ios_actions(actions),
            },
            IosNormalStep::ScreenshotStep { take_screenshot } => IosNormalStep::ScreenshotStep {
                take_screenshot: take_screenshot.clone(),
            },
            IosNormalStep::LogStep { log } => IosNormalStep::LogStep { log: log.clone() },
            IosNormalStep::Pause { pause } => IosNormalStep::Pause { pause: *pause },
        }
    }
}

/// The paths of the store's entries, in store order.
pub open spec fn ios_store_paths(store: IosFlowStore) -> Seq<Seq<char>> {
    store.entries@.map_values(|e: IosFlowEntry| e.path@)
}

/// First-match lookup over the store entries, starting at entry `i`.
pub open spec fn ios_lookup_from(entries: Seq<IosFlowEntry>, p: Seq<char>, i: int) -> Option<
    Seq<IosStep>,
>
    decreases entries.len() - i,
{
    if i < 0 || i >= entries.len() {
        None
    } else if entries[i].path@ == p {
        Some(entries[i].steps@)
    } else {
        ios_lookup_from(entries, p, i + 1)
    }
}

/// First-match lookup of a path in the store.
pub open spec fn ios_lookup(store: IosFlowStore, p: Seq<char>) -> Option<Seq<IosStep>> {
    ios_lookup_from(store.entries@, p, 0)
}

/// Looks a path up in the store, returning the first entry's steps.
fn ios_store_lookup<'a>(store: &'a IosFlowStore, p: &String) -> (r: Option<&'a Vec<IosStep>>)
    ensures
        match r {
            Some(v) => ios_lookup(*store, p@) == Some(v@),
            None => ios_lookup(*store, p@) is None,
        },
{
    let n = store.entries.len();
    let mut i: usize = 0;
    while i < n
        invariant
            i <= n,
            n == store.entries@.len(),
            ios_lookup(*store, p@) == ios_lookup_from(store.entries@, p@, i as int),
        decreases n - i,
    {
        if store.entries[i].path == *p {
            return Some(&store.entries[i].steps);
        }
        i = i + 1;
    }
    None
}

/// A lookup that succeeds found its path among the store's paths.
proof fn lemma_ios_lookup_some_in_paths(entries: Seq<IosFlowEntry>, p: Seq<char>, i: int)
    requires
        0 <= i,
        ios_lookup_from(entries, p, i) is Some,
    ensures
        entries.map_values(|e: IosFlowEntry| e.path@).contains(p),
    decreases entries.len() - i,
{
    if i < entries.len() {
        if entries[i].path@ == p {
            assert(entries.map_values(|e: IosFlowEntry| e.path@)[i] == p);
        } else {
            lemma_ios_lookup_some_in_paths(entries, p, i + 1);
        }
    }
}

/// The chain of step files currently being inlined: no path repeats, and
/// every path names a store entry.
pub open spec fn ios_wf_chain(chain: Seq<Seq<char>>, store: IosFlowStore) -> bool {
    &&& chain.no_duplicates()
    &&& forall|i: int|
        0 <= i < chain.len() ==> ios_store_paths(store).contains(#[trigger] chain[i])
}

/// A well-formed chain cannot be longer than the store.
proof fn lemma_ios_chain_bound(chain: Seq<Seq<char>>, store: IosFlowStore)
    requires
        ios_wf_chain(chain, store),
    ensures
        chain.len() <= store.entries@.len(),
{
    let paths = ios_store_paths(store);
    chain.unique_seq_to_set();
    paths.lemma_cardinality_of_set();
    assert(chain.to_set().subset_of(paths.to_set())) by {
        assert forall|x: Seq<char>| chain.to_set().contains(x) implies paths.to_set().contains(
            x,
        ) by {
            assert(chain.contains(x));
            assert(paths.contains(x));
        }
    }
    lemma_len_subset(chain.to_set(), paths.to_set());
}

/// The result of inlining, at the specification level.
pub enum SpecIosFlatten {
    Flat(Seq<IosNormalStep>),
    MissingFlow { path: Seq<char> },
    Cycle { path: Seq<char> },
}

/// What inlining the suffix of `steps` from `pos` on produces: normal steps
/// kept in order, each step-file reference replaced by its own inlined
/// contents.
pub open spec fn spec_ios_transform_from(
    steps: Seq<IosStep>,
    pos: int,
    chain: Seq<Seq<char>>,
    store: IosFlowStore,
) -> SpecIosFlatten
    decreases store.entries@.len() - chain.len(), steps.len() - pos,
        when 0 <= pos && ios_wf_chain(chain, store)
    via spec_ios_transform_from_decreases
{
    if pos >= steps.len() {
        SpecIosFlatten::Flat(Seq::empty())
    } else {
        match steps[pos] {
            IosStep::IosNormalStep(n) => {
                match spec_ios_transform_from(steps, pos + 1, chain, store) {
                    SpecIosFlatten::Flat(rs) => SpecIosFlatten::Flat(seq![n] + rs),
                    err => err,
                }
            },
            IosStep::IosStepFile { step_file } => {
                if chain.contains(step_file@) {
                    SpecIosFlatten::Cycle { path: step_file@ }
                } else {
                    match ios_lookup(store, step_file@) {
                        None => SpecIosFlatten::MissingFlow { path: step_file@ },
                        Some(sub_steps) => {
                            let sub = spec_ios_transform_from(
                                sub_steps,
                                0,
                                chain.push(step_file@),
                                store,
                            );
                            match sub {
                                SpecIosFlatten::Flat(ss) => {
                                    match spec_ios_transform_from(steps, pos + 1, chain, store) {
                                        SpecIosFlatten::Flat(rs) => SpecIosFlatten::Flat(ss + rs),
                                        err => err,
                                    }
                                },
                                err => err,
                            }
                        },
                    }
                }
            },
        }
    }
}

#[via_fn]
proof fn spec_ios_transform_from_decreases(
    steps: Seq<IosStep>,
    pos: int,
    chain: Seq<Seq<char>>,
    store: IosFlowStore,
) {
    if 0 <= pos && pos < steps.len() && ios_wf_chain(chain, store) {
        lemma_ios_chain_bound(chain, store);
        if let IosStep::IosStepFile { step_file } = steps[pos] {
            if !chain.contains(step_file@) && ios_lookup(store, step_file@) is Some {
                lemma_ios_lookup_some_in_paths(store.entries@, step_file@, 0);
                assert(chain.push(step_file@).no_duplicates()) by {
                    assert(forall|i: int| 0 <= i < chain.len() ==> chain[i] != step_file@);
                }
                assert(ios_wf_chain(chain.push(step_file@), store)) by {
                    assert(forall|i: int|
                        0 <= i < chain.len() ==> ios_store_paths(store).contains(
                            #[trigger] chain.push(step_file@)[i],
                        ));
                    assert(chain.push(step_file@)[chain.len() as int] == step_file@);
                }
                lemma_ios_chain_bound(chain.push(step_file@), store);
            }
        }
    }
}

/// What inlining a whole step list produces.
pub open spec fn spec_ios_transform(steps: Seq<IosStep>, store: IosFlowStore) -> SpecIosFlatten {
    spec_ios_transform_from(steps, 0, Seq::empty(), store)
}

/// How an executable inlining result realises a specification result: the
/// inlined steps agree element for element.
pub open spec fn ios_transform_matches(
    r: Result<Vec<IosNormalStep>, FlattenError>,
    s: SpecIosFlatten,
) -> bool {
    match (r, s) {
        (Result::Ok(out), SpecIosFlatten::Flat(ns)) => out@.len() == ns.len() && forall|i: int|
            0 <= i < ns.len() ==> ios_normal_eq(ns[i], #[trigger] out@[i]),
        (
            Result::Err(FlattenError::MissingFlowFile(p)),
            SpecIosFlatten::MissingFlow { path },
        ) => p@ == path,
        (
            Result::Err(FlattenError::CyclicFlowReference(p)),
            SpecIosFlatten::Cycle { path },
        ) => p@ == path,
        _ => false,
    }
}

/// Tests whether the chain already holds a path.
fn ios_chain_contains(chain: &Vec<String>, p: &String) -> (r: bool)
    ensures
        r == str_views(chain@).contains(p@),
{
    let n = chain.len();
    let mut i: usize = 0;
    while i < n
        invariant
            i <= n,
            n == chain@.len(),
            forall|j: int| 0 <= j < i ==> str_views(chain@)[j] != p@,
        decreases n - i,
    {
        if chain[i] == *p {
            proof {
                assert(str_views(chain@)[i as int] == p@);
            }
            return true;
        }
        i = i + 1;
    }
    false
}

fn ios_transform_from(
    steps: &Vec<IosStep>,
    pos: usize,
    chain: &Vec<String>,
    store: &IosFlowStore,
) -> (r: Result<Vec<IosNormalStep>, FlattenError>)
    requires
        ios_wf_chain(str_views(chain@), *store),
    ensures
        ios_transform_matches(
            r,
            spec_ios_transform_from(steps@, pos as int, str_views(chain@), *store),
        ),
    decreases store.entries@.len() - chain@.len(), steps@.len() - pos,
{
    proof {
        lemma_ios_chain_bound(str_views(chain@), *store);
    }
    if pos >= steps.len() {
        return Ok(Vec::new());
    }
    match &steps[pos] {
        IosStep::IosNormalStep(n) => {
            let head = n.clone();
            match ios_transform_from(steps, pos + 1, chain, store) {
                Err(e) => Err(e),
                Ok(mut rs) => {
                    let ghost rs0 = rs@;
                    let ghost rest_spec = spec_ios_transform_from(
                        steps@,
                        pos + 1,
                        str_views(chain@),
                        *store,
                    );
                    let mut out: Vec<IosNormalStep> = Vec::new();
                    out.push(head);
                    out.append(&mut rs);
                    proof {
                        let ns = seq![steps@[pos as int]->IosNormalStep_0] + rest_spec->Flat_0;
                        assert forall|i: int| 0 <= i < ns.len() implies ios_normal_eq(
                            ns[i],
                            #[trigger] out@[i],
                        ) by {
                            if i > 0 {
                                assert(out@[i] == rs0[i - 1]);
                                assert(ios_normal_eq(rest_spec->Flat_0[i - 1], rs0[i - 1]));
                            }
                        }
                    }
                    Ok(out)
                },
            }
        },
        IosStep::IosStepFile { step_file } => {
            if ios_chain_contains(chain, step_file) {
                return Err(FlattenError::CyclicFlowReference(step_file.clone()));
            }
            match ios_store_lookup(store, step_file) {
                None => Err(FlattenError::MissingFlowFile(step_file.clone())),
                Some(sub_steps) => {
                    let mut new_chain = chain.clone();
                    new_chain.push(step_file.clone());
                    proof {
                        assert(new_chain@ =~= chain@.push(*step_file));
                        let old_views = str_views(chain@);
                        assert(str_views(new_chain@) =~= old_views.push(step_file@));
                        lemma_ios_lookup_some_in_paths(store.entries@, step_file@, 0);
                        assert(old_views.push(step_file@).no_duplicates()) by {
                            assert(forall|i: int|
                                0 <= i < old_views.len() ==> old_views[i] != step_file@);
                        }
                        assert(ios_wf_chain(str_views(new_chain@), *store)) by {
                            assert(forall|i: int|
                                0 <= i < old_views.len() ==> ios_store_paths(*store).contains(
                                    #[trigger] old_views.push(step_file@)[i],
                                ));
                            assert(old_views.push(step_file@)[old_views.len() as int]
                                == step_file@);
                        }
                        lemma_ios_chain_bound(str_views(new_chain@), *store);
                    }
                    match ios_transform_from(sub_steps, 0, &new_chain, store) {
                        Err(e) => Err(e),
                        Ok(mut ss) => {
                            match ios_transform_from(steps, pos + 1, chain, store) {
                                Err(e) => Err(e),
                                Ok(mut rs) => {
                                    let ghost views = str_views(chain@);
                                    let ghost sub_spec = spec_ios_transform_from(
                                        ios_lookup(*store, step_file@).unwrap(),
                                        0,
                                        views.push(step_file@),
                                        *store,
                                    );
                                    let ghost rest_spec = spec_ios_transform_from(
                                        steps@,
                                        pos + 1,
                                        views,
                                        *store,
                                    );
                                    let ghost ss0 = ss@;
                                    let ghost rs0 = rs@;
                                    ss.append(&mut rs);
                                    proof {
                                        let ns = sub_spec->Flat_0 + rest_spec->Flat_0;
                                        assert forall|i: int| 0 <= i < ns.len() implies
                                            ios_normal_eq(ns[i], #[trigger] ss@[i]) by {
                                            if i < ss0.len() {
                                                assert(ss@[i] == ss0[i]);
                                                assert(ios_normal_eq(
                                                    sub_spec->Flat_0[i],
                                                    ss0[i],
                                                ));
                                            } else {
                                                assert(ss@[i] == rs0[i - ss0.len()]);
                                                assert(ios_normal_eq(
                                                    rest_spec->Flat_0[i - ss0.len()],
                                                    rs0[i - ss0.len()],
                                                ));
                                            }
                                        }
                                    }
                                    Ok(ss)
                                },
                            }
                        },
                    }
                },
            }
        },
    }
}

/// Inlines every step-file reference recursively, producing the linear list
/// of normal steps in document order.
pub fn ios_transform_into_actions(steps: &Vec<IosStep>, store: &IosFlowStore) -> (r: Result<
    Vec<IosNormalStep>,
    FlattenError,
>)
    ensures
        ios_transform_matches(r, spec_ios_transform(steps@, *store)),
{
    let empty_chain: Vec<String> = Vec::new();
    proof {
        assert(str_views(empty_chain@) =~= Seq::<Seq<char>>::empty());
    }
    ios_transform_from(steps, 0, &empty_chain, store)
}

} // verus!
