//! The flow flattener.
//!
//! Flattening walks a step list in order and replaces every sub-flow
//! reference by the flattened contents of the referenced flow, depth first
//! and left to right, so that the output is one linear instruction stream.
//! Each output step carries the nesting depth at which it was found.  A trace
//! edge is recorded for every step, from the node of the enclosing flow to a
//! node for the step; the trace carries no execution semantics.
//!
//! Referenced flows are looked up in a [`FlowStore`], a table of already
//! loaded flow files keyed by path.  A reference that resolves to no entry is
//! a [`FlattenError::MissingFlowFile`]; a reference back into a flow that is
//! still being expanded (anywhere along the current chain of enclosing flows)
//! is a [`FlattenError::CyclicFlowReference`].

use vstd::prelude::*;
use vstd::seq_lib::*;
use vstd::set_lib::*;

use crate::flow::Step;
use crate::strutil::{spec_u64_string, u64_to_string};

verus! {

/// One flattened instruction: a step and the nesting depth it came from.
#[derive(Debug, PartialEq)]
pub struct FlatStep {
    pub step: Step,
    pub depth: usize,
}

/// One edge of the execution-trace graph, from the node of the enclosing
/// flow to the node of a step.
#[derive(Debug, PartialEq)]
pub struct TraceEdge {
    pub parent: String,
    pub child: String,
}

/// One loaded flow file: its path and its steps.
pub struct FlowEntry {
    pub path: String,
    pub steps: Vec<Step>,
}

/// A table of loaded flow files, searched front to back by path.
pub struct FlowStore {
    pub entries: Vec<FlowEntry>,
}

/// Why flattening stopped.
#[derive(Debug, PartialEq)]
pub enum FlattenError {
    /// A sub-flow reference resolved to a path with no store entry.
    MissingFlowFile(String),
    /// A sub-flow reference resolved to a flow that is still being expanded.
    CyclicFlowReference(String),
}

/// Joining a relative path onto a base directory: the two joined with `'/'`,
/// or the relative path alone when the base is empty.
pub open spec fn spec_join_path(base: Seq<char>, rel: Seq<char>) -> Seq<char> {
    if base.len() == 0 {
        rel
    } else {
        base + "/"@ + rel
    }
}

/// Joins a relative path onto a base directory.
pub fn join_path(base: &str, rel: &str) -> (r: String)
    ensures
        r@ == spec_join_path(base@, rel@),
{
    if base.unicode_len() == 0 {
        rel.to_owned()
    } else {
        let mut s = base.to_owned();
        s.append("/");
        s.append(rel);
        s
    }
}

/// The directory part of a path: everything before the last `'/'`, or the
/// empty string when the path has no `'/'`.
pub open spec fn spec_parent_dir(p: Seq<char>) -> Seq<char>
    decreases p.len(),
{
    if p.len() == 0 {
        p
    } else if p.last() == '/' {
        p.drop_last()
    } else {
        spec_parent_dir(p.drop_last())
    }
}

/// Returns the directory part of a path.
pub fn parent_dir(path: &str) -> (r: String)
    ensures
        r@ == spec_parent_dir(path@),
{
    let len = path.unicode_len();
    proof {
        assert(path@.subrange(0, len as int) =~= path@);
    }
    let mut i: usize = len;
    while i > 0
        invariant
            i <= len,
            len == path@.len(),
            spec_parent_dir(path@) == spec_parent_dir(path@.subrange(0, i as int)),
        decreases i,
    {
        if path.get_char(i - 1) == '/' {
            let r = path.substring_char(0, i - 1).to_owned();
            proof {
                let pre = path@.subrange(0, i as int);
                assert(pre.last() == path@[i - 1]);
                assert(pre.drop_last() =~= path@.subrange(0, i - 1));
            }
            return r;
        }
        proof {
            let pre = path@.subrange(0, i as int);
            assert(pre.last() == path@[i - 1]);
            assert(pre.drop_last() =~= path@.subrange(0, i - 1));
        }
        i = i - 1;
    }
    proof {
        assert(path@.subrange(0, 0) =~= Seq::<char>::empty());
    }
    String::new()
}

/// The views of a sequence of strings.
pub open spec fn str_views(s: Seq<String>) -> Seq<Seq<char>> {
    s.map_values(|x: String| x@)
}

/// The paths of the store's entries, in store order.
pub open spec fn spec_store_paths(store: FlowStore) -> Seq<Seq<char>> {
    store.entries@.map_values(|e: FlowEntry| e.path@)
}

/// First-match lookup over the store entries, starting at entry `i`.
pub open spec fn spec_lookup_from(entries: Seq<FlowEntry>, p: Seq<char>, i: int) -> Option<
    Seq<Step>,
>
    decreases entries.len() - i,
{
    if i < 0 || i >= entries.len() {
        None
    } else if entries[i].path@ == p {
        Some(entries[i].steps@)
    } else {
        spec_lookup_from(entries, p, i + 1)
    }
}

/// First-match lookup of a path in the store.
pub open spec fn spec_lookup(store: FlowStore, p: Seq<char>) -> Option<Seq<Step>> {
    spec_lookup_from(store.entries@, p, 0)
}

/// Looks a path up in the store, returning the first entry's steps.
fn store_lookup<'a>(store: &'a FlowStore, p: &String) -> (r: Option<&'a Vec<Step>>)
    ensures
        match r {
            Some(v) => spec_lookup(*store, p@) == Some(v@),
            None => spec_lookup(*store, p@) is None,
        },
{
    let n = store.entries.len();
    let mut i: usize = 0;
    while i < n
        invariant
            i <= n,
            n == store.entries@.len(),
            spec_lookup(*store, p@) == spec_lookup_from(store.entries@, p@, i as int),
        decreases n - i,
    {
        if store.entries[i].path == *p {
            return Some(&store.entries[i].steps);
        }
        i = i + 1;
    }
    None
}

/// A lookup that succeeds found its path among the store's paths.
proof fn lemma_lookup_some_in_paths(entries: Seq<FlowEntry>, p: Seq<char>, i: int)
    requires
        0 <= i,
        spec_lookup_from(entries, p, i) is Some,
    ensures
        entries.map_values(|e: FlowEntry| e.path@).contains(p),
    decreases entries.len() - i,
{
    if i < entries.len() {
        if entries[i].path@ == p {
            assert(entries.map_values(|e: FlowEntry| e.path@)[i] == p);
        } else {
            lemma_lookup_some_in_paths(entries, p, i + 1);
        }
    }
}

/// The chain of flows currently being expanded: no path repeats, and every
/// path names a store entry.
pub open spec fn wf_chain(chain: Seq<Seq<char>>, store: FlowStore) -> bool {
    &&& chain.no_duplicates()
    &&& forall|i: int| 0 <= i < chain.len() ==> spec_store_paths(store).contains(#[trigger] chain[i])
}

/// A well-formed chain cannot be longer than the store.
proof fn lemma_chain_bound(chain: Seq<Seq<char>>, store: FlowStore)
    requires
        wf_chain(chain, store),
    ensures
        chain.len() <= store.entries@.len(),
{
    let paths = spec_store_paths(store);
    chain.unique_seq_to_set();
    paths.lemma_cardinality_of_set();
    assert(chain.to_set().subset_of(paths.to_set())) by {
        assert forall|x: Seq<char>| chain.to_set().contains(x) implies paths.to_set().contains(
            x,
        ) by {
            assert(chain.contains(x));
            assert(paths.contains(x));
        }
    }
    lemma_len_subset(chain.to_set(), paths.to_set());
}

/// The short name of a step's shape, used to label its trace node.
pub open spec fn spec_step_name(s: Step) -> Seq<char> {
    match s {
        Step::RunFlow { .. } => "RunFlow"@,
        Step::TapOn { .. } => "TapOn"@,
        Step::RunScript { .. } => "RunScript"@,
        Step::InputText { .. } => "InputText"@,
        Step::AssertVisible { .. } => "AssertVisible"@,
        Step::AssertNotVisible { .. } => "AssertNotVisible"@,
        Step::LaunchApp { .. } => "LaunchApp"@,
        Step::Swipe { .. } => "Swipe"@,
    }
}

/// Returns the short name of a step's shape.
pub fn step_name(s: &Step) -> (r: &'static str)
    ensures
        r@ == spec_step_name(*s),
{
    match s {
        Step::RunFlow { .. } => "RunFlow",
        Step::TapOn { .. } => "TapOn",
        Step::RunScript { .. } => "RunScript",
        Step::InputText { .. } => "InputText",
        Step::AssertVisible { .. } => "AssertVisible",
        Step::AssertNotVisible { .. } => "AssertNotVisible",
        Step::LaunchApp { .. } => "LaunchApp",
        Step::Swipe { .. } => "Swipe",
    }
}

/// The trace node of the sub-flow reference at position `pos`.
pub open spec fn spec_subflow_node(prefix: Seq<char>, pos: int, rel: Seq<char>) -> Seq<char> {
    "idRunFlow"@ + prefix + "_"@ + spec_u64_string(pos as nat) + "("@ + rel + ")"@
}

/// The trace node of the plain step `s` at position `pos`.
pub open spec fn spec_step_node(prefix: Seq<char>, pos: int, s: Step) -> Seq<char> {
    "idStepName"@ + prefix + "_"@ + spec_u64_string(pos as nat) + "("@ + spec_step_name(s) + ")"@
}

/// The result of flattening, at the specification level: the flattened
/// instructions and the trace edges, or the error that stopped the walk.
pub enum SpecFlatten {
    Flat { steps: Seq<FlatStep>, trace: Seq<(Seq<char>, Seq<char>)> },
    MissingFlow { path: Seq<char> },
    Cycle { path: Seq<char> },
}

/// What flattening the suffix of `steps` from `pos` on produces.
///
/// `base` is the directory sub-flow paths are resolved against, `parent` the
/// trace node of the enclosing flow, `prefix` the position prefix for node
/// identifiers, `depth` the current nesting depth, and `chain` the paths of
/// the flows currently being expanded, outermost first.
pub open spec fn spec_flatten_from(
    steps: Seq<Step>,
    pos: int,
    base: Seq<char>,
    parent: Seq<char>,
    prefix: Seq<char>,
    depth: nat,
    chain: Seq<Seq<char>>,
    store: FlowStore,
) -> SpecFlatten
    decreases store.entries@.len() - chain.len(), steps.len() - pos,
        when 0 <= pos && wf_chain(chain, store) && depth == chain.len()
    via spec_flatten_from_decreases
{
    if pos >= steps.len() {
        SpecFlatten::Flat { steps: Seq::empty(), trace: Seq::empty() }
    } else {
        match steps[pos] {
            Step::RunFlow { runFlow } => {
                let joined = spec_join_path(base, runFlow@);
                let node = spec_subflow_node(prefix, pos, runFlow@);
                if chain.contains(joined) {
                    SpecFlatten::Cycle { path: joined }
                } else {
                    match spec_lookup(store, joined) {
                        None => SpecFlatten::MissingFlow { path: joined },
                        Some(sub_steps) => {
                            let sub = spec_flatten_from(
                                sub_steps,
                                0,
                                spec_parent_dir(joined),
                                node,
                                prefix + "_"@ + spec_u64_string(pos as nat),
                                depth + 1,
                                chain.push(joined),
                                store,
                            );
                            match sub {
                                SpecFlatten::Flat { steps: ss, trace: st } => {
                                    let rest = spec_flatten_from(
                                        steps,
                                        pos + 1,
                                        base,
                                        parent,
                                        prefix,
                                        depth,
                                        chain,
                                        store,
                                    );
                                    match rest {
                                        SpecFlatten::Flat { steps: rs, trace: rt } => {
                                            SpecFlatten::Flat {
                                                steps: ss + rs,
                                                trace: seq![(parent, node)] + st + rt,
                                            }
                                        },
                                        err => err,
                                    }
                                },
                                err => err,
                            }
                        },
                    }
                }
            },
            s => {
                let node = spec_step_node(prefix, pos, s);
                let rest = spec_flatten_from(steps, pos + 1, base, parent, prefix, depth, chain, store);
                match rest {
                    SpecFlatten::Flat { steps: rs, trace: rt } => {
                        SpecFlatten::Flat {
                            steps: seq![FlatStep { step: s, depth: depth as usize }] + rs,
                            trace: seq![(parent, node)] + rt,
                        }
                    },
                    err => err,
                }
            },
        }
    }
}

#[via_fn]
proof fn spec_flatten_from_decreases(
    steps: Seq<Step>,
    pos: int,
    base: Seq<char>,
    parent: Seq<char>,
    prefix: Seq<char>,
    depth: nat,
    chain: Seq<Seq<char>>,
    store: FlowStore,
) {
    if 0 <= pos && pos < steps.len() && wf_chain(chain, store) {
        lemma_chain_bound(chain, store);
        if let Step::RunFlow { runFlow } = steps[pos] {
            let joined = spec_join_path(base, runFlow@);
            if !chain.contains(joined) && spec_lookup(store, joined) is Some {
                lemma_lookup_some_in_paths(store.entries@, joined, 0);
                assert(chain.push(joined).no_duplicates()) by {
                    assert(forall|i: int| 0 <= i < chain.len() ==> chain[i] != joined);
                }
                assert(wf_chain(chain.push(joined), store)) by {
                    assert(forall|i: int|
                        0 <= i < chain.len() ==> spec_store_paths(store).contains(
                            #[trigger] chain.push(joined)[i],
                        ));
                    assert(chain.push(joined)[chain.len() as int] == joined);
                }
                lemma_chain_bound(chain.push(joined), store);
            }
        }
    }
}

/// What flattening a whole step list at depth zero produces.
pub open spec fn spec_flatten(
    steps: Seq<Step>,
    base: Seq<char>,
    parent: Seq<char>,
    store: FlowStore,
) -> SpecFlatten {
    spec_flatten_from(steps, 0, base, parent, Seq::empty(), 0, Seq::empty(), store)
}

/// The views of a sequence of trace edges.
pub open spec fn edges_view(es: Seq<TraceEdge>) -> Seq<(Seq<char>, Seq<char>)> {
    es.map_values(|e: TraceEdge| (e.parent@, e.child@))
}

/// How an executable flattening result realises a specification result.
pub open spec fn flatten_matches(
    r: Result<(Vec<FlatStep>, Vec<TraceEdge>), FlattenError>,
    s: SpecFlatten,
) -> bool {
    match (r, s) {
        (Result::Ok(out), SpecFlatten::Flat { steps, trace }) => out.0@ == steps && edges_view(
            out.1@,
        ) == trace,
        (
            Result::Err(FlattenError::MissingFlowFile(p)),
            SpecFlatten::MissingFlow { path },
        ) => p@ == path,
        (
            Result::Err(FlattenError::CyclicFlowReference(p)),
            SpecFlatten::Cycle { path },
        ) => p@ == path,
        _ => false,
    }
}

/// Tests whether the chain already holds a path.
fn chain_contains(chain: &Vec<String>, p: &String) -> (r: bool)
    ensures
        r == str_views(chain@).contains(p@),
{
    let n = chain.len();
    let mut i: usize = 0;
    while i < n
        invariant
            i <= n,
            n == chain@.len(),
            forall|j: int| 0 <= j < i ==> str_views(chain@)[j] != p@,
        decreases n - i,
    {
        if chain[i] == *p {
            proof {
                assert(str_views(chain@)[i as int] == p@);
            }
            return true;
        }
        i = i + 1;
    }
    false
}

/// Clones a chain of paths.
fn clone_chain(chain: &Vec<String>) -> (r: Vec<String>)
    ensures
        r@ == chain@,
{
    let r = chain.clone();
    proof {
        assert(r@ =~= chain@);
    }
    r
}

fn flatten_from(
    steps: &Vec<Step>,
    pos: usize,
    base: &str,
    parent: &str,
    prefix: &str,
    depth: usize,
    chain: &Vec<String>,
    store: &FlowStore,
) -> (r: Result<(Vec<FlatStep>, Vec<TraceEdge>), FlattenError>)
    requires
        wf_chain(str_views(chain@), *store),
        depth == chain@.len(),
    ensures
        flatten_matches(
            r,
            spec_flatten_from(
                steps@,
                pos as int,
                base@,
                parent@,
                prefix@,
                depth as nat,
                str_views(chain@),
                *store,
            ),
        ),
    decreases store.entries@.len() - chain@.len(), steps@.len() - pos,
{
    proof {
        lemma_chain_bound(str_views(chain@), *store);
    }
    if pos >= steps.len() {
        let out_steps: Vec<FlatStep> = Vec::new();
        let out_trace: Vec<TraceEdge> = Vec::new();
        proof {
            assert(edges_view(out_trace@) =~= Seq::<(Seq<char>, Seq<char>)>::empty());
        }
        return Ok((out_steps, out_trace));
    }
    let s_ref = &steps[pos];
    match s_ref {
        Step::RunFlow { runFlow } => {
            let joined = join_path(base, runFlow.as_str());
            let idx_str = u64_to_string(pos as u64);
            let mut bare = prefix.to_owned();
            bare.append("_");
            bare.append(idx_str.as_str());
            let mut node = String::from_str("idRunFlow");
            node.append(bare.as_str());
            node.append("(");
            node.append(runFlow.as_str());
            node.append(")");
            proof {
                assert(node@ =~= spec_subflow_node(prefix@, pos as int, runFlow@));
            }
            if chain_contains(chain, &joined) {
                return Err(FlattenError::CyclicFlowReference(joined));
            }
            match store_lookup(store, &joined) {
                None => Err(FlattenError::MissingFlowFile(joined)),
                Some(sub_steps) => {
                    let sub_base = parent_dir(joined.as_str());
                    let mut new_chain = clone_chain(chain);
                    new_chain.push(joined.clone());
                    proof {
                        assert(str_views(new_chain@) =~= str_views(chain@).push(joined@));
                        lemma_lookup_some_in_paths(store.entries@, joined@, 0);
                        let old_views = str_views(chain@);
                        assert(old_views.push(joined@).no_duplicates()) by {
                            assert(forall|i: int|
                                0 <= i < old_views.len() ==> old_views[i] != joined@);
                        }
                        assert(wf_chain(str_views(new_chain@), *store)) by {
                            assert(forall|i: int|
                                0 <= i < old_views.len() ==> spec_store_paths(*store).contains(
                                    #[trigger] old_views.push(joined@)[i],
                                ));
                            assert(old_views.push(joined@)[old_views.len() as int] == joined@);
                        }
                        lemma_chain_bound(str_views(new_chain@), *store);
                    }
                    let new_depth = new_chain.len();
                    let sub_r = flatten_from(
                        sub_steps,
                        0,
                        sub_base.as_str(),
                        node.as_str(),
                        bare.as_str(),
                        new_depth,
                        &new_chain,
                        store,
                    );
                    match sub_r {
                        Err(e) => Err(e),
                        Ok((mut ss, mut st)) => {
                            let rest_r = flatten_from(
                                steps,
                                pos + 1,
                                base,
                                parent,
                                prefix,
                                depth,
                                chain,
                                store,
                            );
                            match rest_r {
                                Err(e) => Err(e),
                                Ok((mut rs, mut rt)) => {
                                    let ghost st0 = st@;
                                    let ghost rt0 = rt@;
                                    ss.append(&mut rs);
                                    let mut trace: Vec<TraceEdge> = Vec::new();
                                    trace.push(
                                        TraceEdge { parent: parent.to_owned(), child: node },
                                    );
                                    trace.append(&mut st);
                                    trace.append(&mut rt);
                                    proof {
                                        let edge = (
                                            parent@,
                                            spec_subflow_node(prefix@, pos as int, runFlow@),
                                        );
                                        assert(edges_view(trace@) =~= seq![edge]
                                            + edges_view(st0) + edges_view(rt0));
                                    }
                                    Ok((ss, trace))
                                },
                            }
                        },
                    }
                },
            }
        },
        _ => {
            let s = s_ref.clone();
            proof {
                assert(s == steps@[pos as int]);
            }
            let idx_str = u64_to_string(pos as u64);
            let name = step_name(&s);
            let mut node = String::from_str("idStepName");
            node.append(prefix);
            node.append("_");
            node.append(idx_str.as_str());
            node.append("(");
            node.append(name);
            node.append(")");
            proof {
                assert(node@ =~= spec_step_node(prefix@, pos as int, steps@[pos as int]));
            }
            let rest_r = flatten_from(steps, pos + 1, base, parent, prefix, depth, chain, store);
            match rest_r {
                Err(e) => Err(e),
                Ok((mut rs, mut rt)) => {
                    let ghost rs0 = rs@;
                    let ghost rt0 = rt@;
                    let mut out_steps: Vec<FlatStep> = Vec::new();
                    out_steps.push(FlatStep { step: s, depth });
                    out_steps.append(&mut rs);
                    let mut trace: Vec<TraceEdge> = Vec::new();
                    trace.push(TraceEdge { parent: parent.to_owned(), child: node });
                    trace.append(&mut rt);
                    proof {
                        let x = FlatStep { step: steps@[pos as int], depth };
                        assert(out_steps@ =~= seq![x] + rs0);
                        let edge = (parent@, spec_step_node(prefix@, pos as int, steps@[pos as int]));
                        assert(edges_view(trace@) =~= seq![edge] + edges_view(rt0));
                    }
                    Ok((out_steps, trace))
                },
            }
        },
    }
}

/// Flattens a list of steps, resolving any sub-flow reference recursively
/// against the store.
///
/// On success the first component holds the flattened instructions in
/// document order, each tagged with its nesting depth (the given steps at
/// depth zero); the second holds one trace edge per step.  `base_path` is the
/// directory of the flow the steps came from, and `mermaid_parent_id` the
/// trace node that stands for that flow.
pub fn flatten_steps(
    steps: Vec<Step>,
    base_path: &str,
    mermaid_parent_id: String,
    store: &FlowStore,
) -> (r: Result<(Vec<FlatStep>, Vec<TraceEdge>), FlattenError>)
    ensures
        flatten_matches(r, spec_flatten(steps@, base_path@, mermaid_parent_id@, *store)),
{
    let empty_chain: Vec<String> = Vec::new();
    proof {
        assert(str_views(empty_chain@) =~= Seq::<Seq<char>>::empty());
        reveal_strlit("");
        assert(""@ =~= Seq::<char>::empty());
    }
    flatten_from(&steps, 0, base_path, mermaid_parent_id.as_str(), "", 0, &empty_chain, store)
}

proof fn lemma_flatten_from_no_subflows(
    steps: Seq<Step>,
    pos: int,
    base: Seq<char>,
    parent: Seq<char>,
    prefix: Seq<char>,
    depth: nat,
    chain: Seq<Seq<char>>,
    store: FlowStore,
)
    requires
        0 <= pos <= steps.len(),
        wf_chain(chain, store),
        depth == chain.len(),
        forall|i: int| pos <= i < steps.len() ==> !(#[trigger] steps[i] is RunFlow),
    ensures
        (spec_flatten_from(steps, pos, base, parent, prefix, depth, chain, store) matches
            SpecFlatten::Flat { steps: fs, trace: _ } && fs.len() == steps.len() - pos && forall|
            i: int,
        |
            0 <= i < fs.len() ==> #[trigger] fs[i] == FlatStep {
                step: steps[pos + i],
                depth: depth as usize,
            }),
    decreases steps.len() - pos,
{
    if pos < steps.len() {
        lemma_flatten_from_no_subflows(steps, pos + 1, base, parent, prefix, depth, chain, store);
    }
}

/// Law: flattening a flow with no sub-flow references is the identity on step
/// order and content; only depth metadata is added, at depth zero.
pub proof fn lemma_flatten_identity_without_subflows(
    steps: Seq<Step>,
    base: Seq<char>,
    parent: Seq<char>,
    store: FlowStore,
)
    requires
        forall|i: int| 0 <= i < steps.len() ==> !(#[trigger] steps[i] is RunFlow),
    ensures
        (spec_flatten(steps, base, parent, store) matches SpecFlatten::Flat {
            steps: fs,
            trace: _,
        } && fs.len() == steps.len() && forall|i: int|
            0 <= i < fs.len() ==> #[trigger] fs[i] == FlatStep { step: steps[i], depth: 0 }),
{
    lemma_flatten_from_no_subflows(
        steps,
        0,
        base,
        parent,
        Seq::empty(),
        0,
        Seq::empty(),
        store,
    );
}

proof fn lemma_splice_from(
    steps: Seq<Step>,
    k: int,
    rel: Seq<char>,
    sub: Seq<Step>,
    pos: int,
    base: Seq<char>,
    parent: Seq<char>,
    prefix: Seq<char>,
    store: FlowStore,
)
    requires
        0 <= pos <= k < steps.len(),
        steps[k] matches Step::RunFlow { runFlow } && runFlow@ == rel,
        forall|i: int| 0 <= i < steps.len() && i != k ==> !(#[trigger] steps[i] is RunFlow),
        spec_lookup(store, spec_join_path(base, rel)) == Some(sub),
        forall|i: int| 0 <= i < sub.len() ==> !(#[trigger] sub[i] is RunFlow),
    ensures
        (spec_flatten_from(steps, pos, base, parent, prefix, 0, Seq::empty(), store) matches
            SpecFlatten::Flat { steps: fs, trace: _ } && fs.len() == steps.len() - pos - 1
            + sub.len() && (forall|i: int|
            0 <= i < k - pos ==> #[trigger] fs[i] == FlatStep { step: steps[pos + i], depth: 0 })
            && (forall|i: int|
            0 <= i < sub.len() ==> #[trigger] fs[k - pos + i] == FlatStep {
                step: sub[i],
                depth: 1,
            }) && (forall|i: int|
            k < i < steps.len() ==> #[trigger] fs[i - pos - 1 + sub.len()] == FlatStep {
                step: steps[i],
                depth: 0,
            })),
    decreases k - pos,
{
    if pos == k {
        let joined = spec_join_path(base, rel);
        let node = spec_subflow_node(prefix, pos, rel);
        let sub_prefix = prefix + "_"@ + spec_u64_string(pos as nat);
        lemma_lookup_some_in_paths(store.entries@, joined, 0);
        let chain1 = Seq::<Seq<char>>::empty().push(joined);
        assert(wf_chain(chain1, store)) by {
            assert(chain1[0] == joined);
        }
        lemma_flatten_from_no_subflows(
            sub,
            0,
            spec_parent_dir(joined),
            node,
            sub_prefix,
            1,
            chain1,
            store,
        );
        lemma_flatten_from_no_subflows(
            steps,
            k + 1,
            base,
            parent,
            prefix,
            0,
            Seq::empty(),
            store,
        );
        let sub_r = spec_flatten_from(
            sub,
            0,
            spec_parent_dir(joined),
            node,
            sub_prefix,
            1,
            chain1,
            store,
        );
        let rest_r = spec_flatten_from(steps, k + 1, base, parent, prefix, 0, Seq::empty(), store);
        let ss = sub_r->Flat_steps;
        let rs = rest_r->Flat_steps;
        let r = spec_flatten_from(steps, pos, base, parent, prefix, 0, Seq::empty(), store);
        assert(r matches SpecFlatten::Flat { steps: fs, trace: _ } && fs == ss + rs);
        let fs = r->Flat_steps;
        assert forall|i: int| 0 <= i < sub.len() implies #[trigger] fs[k - pos + i] == FlatStep {
            step: sub[i],
            depth: 1,
        } by {
            assert(fs[k - pos + i] == ss[i]);
        }
        assert forall|i: int| k < i < steps.len() implies #[trigger] fs[i - pos - 1 + sub.len()]
            == FlatStep { step: steps[i], depth: 0 } by {
            assert(fs[i - pos - 1 + sub.len()] == rs[i - k - 1]);
        }
    } else {
        lemma_splice_from(steps, k, rel, sub, pos + 1, base, parent, prefix, store);
        let r_next = spec_flatten_from(steps, pos + 1, base, parent, prefix, 0, Seq::empty(), store);
        let fs1 = r_next->Flat_steps;
        let r = spec_flatten_from(steps, pos, base, parent, prefix, 0, Seq::empty(), store);
        let x = FlatStep { step: steps[pos], depth: 0 };
        assert(r matches SpecFlatten::Flat { steps: fs, trace: _ } && fs == seq![x] + fs1);
        let fs = r->Flat_steps;
        assert forall|i: int| 0 <= i < k - pos implies #[trigger] fs[i] == FlatStep {
            step: steps[pos + i],
            depth: 0,
        } by {
            if i > 0 {
                assert(fs[i] == fs1[i - 1]);
            }
        }
        assert forall|i: int| 0 <= i < sub.len() implies #[trigger] fs[k - pos + i] == FlatStep {
            step: sub[i],
            depth: 1,
        } by {
            assert(fs[k - pos + i] == fs1[k - (pos + 1) + i]);
        }
        assert forall|i: int| k < i < steps.len() implies #[trigger] fs[i - pos - 1 + sub.len()]
            == FlatStep { step: steps[i], depth: 0 } by {
            assert(fs[i - pos - 1 + sub.len()] == fs1[i - (pos + 1) - 1 + sub.len()]);
        }
    }
}

/// Law: for one level of sub-flow inclusion, the flattened sequence equals
/// the root's steps with the referenced flow's steps spliced in at the
/// reference position, the spliced steps tagged one level deeper.
pub proof fn lemma_flatten_single_splice(
    steps: Seq<Step>,
    k: int,
    rel: Seq<char>,
    sub: Seq<Step>,
    base: Seq<char>,
    parent: Seq<char>,
    store: FlowStore,
)
    requires
        0 <= k < steps.len(),
        steps[k] matches Step::RunFlow { runFlow } && runFlow@ == rel,
        forall|i: int| 0 <= i < steps.len() && i != k ==> !(#[trigger] steps[i] is RunFlow),
        spec_lookup(store, spec_join_path(base, rel)) == Some(sub),
        forall|i: int| 0 <= i < sub.len() ==> !(#[trigger] sub[i] is RunFlow),
    ensures
        (spec_flatten(steps, base, parent, store) matches SpecFlatten::Flat {
            steps: fs,
            trace: _,
        } && fs.len() == steps.len() - 1 + sub.len() && (forall|i: int|
            0 <= i < k ==> #[trigger] fs[i] == FlatStep { step: steps[i], depth: 0 }) && (forall|
            i: int,
        |
            0 <= i < sub.len() ==> #[trigger] fs[k + i] == FlatStep { step: sub[i], depth: 1 })
            && (forall|i: int|
            k < i < steps.len() ==> #[trigger] fs[i - 1 + sub.len()] == FlatStep {
                step: steps[i],
                depth: 0,
            })),
{
    lemma_splice_from(steps, k, rel, sub, 0, base, parent, Seq::empty(), store);
    let r = spec_flatten_from(steps, 0, base, parent, Seq::empty(), 0, Seq::empty(), store);
    let fs = r->Flat_steps;
    assert(r is Flat);
    assert(fs.len() == steps.len() - 1 + sub.len());
    assert forall|i: int| 0 <= i < k implies #[trigger] fs[i] == FlatStep {
        step: steps[i],
        depth: 0,
    } by {
        assert(fs[0 + i] == FlatStep { step: steps[0 + i], depth: 0 });
    }
    assert forall|i: int| 0 <= i < sub.len() implies #[trigger] fs[k + i] == FlatStep {
        step: sub[i],
        depth: 1,
    } by {
        assert(fs[k - 0 + i] == FlatStep { step: sub[i], depth: 1 });
    }
    assert forall|i: int| k < i < steps.len() implies #[trigger] fs[i - 1 + sub.len()] == FlatStep {
        step: steps[i],
        depth: 0,
    } by {
        assert(fs[i - 0 - 1 + sub.len()] == FlatStep { step: steps[i], depth: 0 });
    }
}

} // verus!
