//! The reference hint processor: it compiles the canonical hint bodies
//! into a dispatch artifact carrying the call site's ap tracking and the
//! joined name-to-reference table, and executes that artifact against
//! live machine state through the verified hint functions.

use vstd::prelude::*;
use crate::bindings::Bindings;
use crate::errors::VirtualMachineError;
use crate::exec_scope::ExecutionScopes;
use crate::hint_processor_definition::ApTracking;
use crate::hint_processor_definition::HintProcessor;
use crate::hint_processor_definition::HintReference;
use crate::hint_processor_definition::RefModel;
use crate::hint_utils::add_segment;
use crate::hint_utils::add_segment_post;
use crate::hint_utils::enter_scope;
use crate::hint_utils::enter_scope_post;
use crate::hint_utils::exit_scope;
use crate::hint_utils::exit_scope_post;
use crate::hint_utils::memcpy_continue_copying;
use crate::hint_utils::memcpy_continue_copying_post;
use crate::hint_utils::memcpy_enter_scope;
use crate::hint_utils::memcpy_enter_scope_post;
use crate::relocatable::MaybeRelocatable;
use crate::vm::VMProxy;

verus! {

/// The canonical hint bodies this processor understands.
#[derive(Clone, Copy, PartialEq, Eq, Structural, Debug)]
pub enum HintKind {
    AddSegment,
    EnterScope,
    ExitScope,
    MemcpyEnterScope,
    MemcpyContinueCopying,
}

/// Which canonical hint a hint body is, if any.
pub open spec fn hint_kind(code: Seq<char>) -> Option<HintKind> {
    if code == "memory[ap] = segments.add()"@ {
        Some(HintKind::AddSegment)
    } else if code == "vm_enter_scope()"@ {
        Some(HintKind::EnterScope)
    } else if code == "vm_exit_scope()"@ {
        Some(HintKind::ExitScope)
    } else if code == "vm_enter_scope({'n': ids.len})"@ {
        Some(HintKind::MemcpyEnterScope)
    } else if code == "n -= 1\nids.continue_copying = 1 if n > 0 else 0"@ {
        Some(HintKind::MemcpyContinueCopying)
    } else {
        None
    }
}

/// The reference a numeric id names, under the latest entry for that id.
pub open spec fn id_of(refs: Seq<(usize, HintReference)>, id: usize) -> Option<RefModel>
    decreases refs.len(),
{
    if refs.len() == 0 {
        None
    } else if refs.last().0 == id {
        Some(refs.last().1@)
    } else {
        id_of(refs.drop_last(), id)
    }
}

/// The name-to-reference table the two deserialized mappings denote:
/// each name is sent through its id to its reference; a dangling id makes
/// the whole table undefined.
pub open spec fn joined_ids(
    ref_ids: Seq<(String, usize)>,
    refs: Seq<(usize, HintReference)>,
) -> Option<Map<Seq<char>, RefModel>>
    decreases ref_ids.len(),
{
    if ref_ids.len() == 0 {
        Some(Map::empty())
    } else {
        match (joined_ids(ref_ids.drop_last(), refs), id_of(refs, ref_ids.last().1)) {
            (Some(m), Some(r)) => Some(m.insert(ref_ids.last().0@, r)),
            _ => None,
        }
    }
}

proof fn lemma_id_of_absent(refs: Seq<(usize, HintReference)>, id: usize)
    requires
        forall|j: int| 0 <= j < refs.len() ==> refs[j].0 != id,
    ensures
        id_of(refs, id) is None,
    decreases refs.len(),
{
    if refs.len() > 0 {
        assert(refs.drop_last() =~= refs.subrange(0, refs.len() - 1));
        lemma_id_of_absent(refs.drop_last(), id);
    }
}

proof fn lemma_id_of_found(refs: Seq<(usize, HintReference)>, i: int, id: usize)
    requires
        0 <= i < refs.len(),
        refs[i].0 == id,
        forall|j: int| i < j < refs.len() ==> refs[j].0 != id,
    ensures
        id_of(refs, id) == Some(refs[i].1@),
    decreases refs.len(),
{
    if i < refs.len() - 1 {
        assert(refs.drop_last() =~= refs.subrange(0, refs.len() - 1));
        lemma_id_of_found(refs.drop_last(), i, id);
    }
}

/// Looks the latest reference entry for a numeric id up.
fn lookup_reference<'a>(refs: &'a Vec<(usize, HintReference)>, id: usize) -> (r: Option<
    &'a HintReference,
>)
    ensures
        match r {
            Some(reference) => id_of(refs@, id) == Some(reference@),
            None => id_of(refs@, id) is None,
        },
{
    let mut i: usize = refs.len();
    while i > 0
        invariant
            i <= refs@.len(),
            forall|j: int| i <= j < refs@.len() ==> refs@[j].0 != id,
        decreases i,
    {
        i = i - 1;
        if refs[i].0 == id {
            proof {
                lemma_id_of_found(refs@, i as int, id);
            }
            return Some(&refs[i].1);
        }
    }
    proof {
        lemma_id_of_absent(refs@, id);
    }
    None
}

/// The compiled artifact: the recognized hint body, the call site's ap
/// tracking, and the joined name-to-reference table.
pub struct HintProcessorData {
    pub code: String,
    pub kind: HintKind,
    pub ap_tracking: ApTracking,
    pub ids_data: Bindings<HintReference>,
}

/// The processor of the canonical hint library.
pub struct BuiltinHintProcessor {}

impl BuiltinHintProcessor {
    pub fn new() -> (r: Self)
        ensures
            r == (BuiltinHintProcessor {  }),
    {
        BuiltinHintProcessor {  }
    }
}

impl HintProcessor for BuiltinHintProcessor {
    type CompiledHint = HintProcessorData;

    /// Pure translation of a hint body and its reference metadata into
    /// the dispatch artifact: a dangling reference id fails with
    /// `FailedToGetIds`, an unrecognized body with `UnknownHint`, and a
    /// compiled artifact carries the body's kind, the call site's ap
    /// tracking and the joined table.
    fn compile_hint(
        &self,
        hint_code: &str,
        ap_tracking_data: &ApTracking,
        reference_ids: &Vec<(String, usize)>,
        references: &Vec<(usize, HintReference)>,
    ) -> (r: Result<HintProcessorData, VirtualMachineError>)
        ensures
            match joined_ids(reference_ids@, references@) {
                Some(m) => match hint_kind(hint_code@) {
                    Some(k) => r matches Ok(d) && d.code@ == hint_code@ && d.kind == k
                        && d.ap_tracking == *ap_tracking_data && d.ids_data@ == m,
                    None => r matches Err(VirtualMachineError::UnknownHint(c)) && c@
                        == hint_code@,
                },
                None => r matches Err(e) && e == VirtualMachineError::FailedToGetIds,
            },
    {
        let mut ids_data: Bindings<HintReference> = Bindings::new();
        let mut i: usize = 0;
        while i < reference_ids.len()
            invariant
                i <= reference_ids@.len(),
                joined_ids(reference_ids@.subrange(0, i as int), references@) == Some(ids_data@),
            decreases reference_ids@.len() - i,
        {
            let ghost prefix = reference_ids@.subrange(0, i as int);
            match lookup_reference(references, reference_ids[i].1) {
                Some(reference) => {
                    ids_data.insert(reference_ids[i].0.clone(), reference.clone());
                },
                None => {
                    proof {
                        lemma_joined_ids_dangling(reference_ids@, references@, i as int);
                    }
                    return Err(VirtualMachineError::FailedToGetIds);
                },
            }
            i = i + 1;
            proof {
                let next = reference_ids@.subrange(0, i as int);
                assert(next.drop_last() =~= prefix);
                assert(next.last() == reference_ids@[i - 1]);
            }
        }
        proof {
            assert(reference_ids@.subrange(0, reference_ids@.len() as int) =~= reference_ids@);
        }
        let kind = match recognize_hint(hint_code) {
            Some(kind) => kind,
            None => {
                return Err(VirtualMachineError::UnknownHint(hint_code.to_owned()));
            },
        };
        Ok(HintProcessorData {
            code: hint_code.to_owned(),
            kind,
            ap_tracking: *ap_tracking_data,
            ids_data,
        })
    }

    /// One execution of a compiled artifact against live machine state:
    /// it dispatches to the canonical hint the artifact names, and does
    /// to memory and scopes exactly what that hint's postcondition
    /// states.
    fn execute_hint(
        &mut self,
        vm: &mut VMProxy,
        exec_scopes: &mut ExecutionScopes,
        hint_data: &HintProcessorData,
        _constants: &Bindings<MaybeRelocatable>,
    ) -> (r: Result<(), VirtualMachineError>)
        ensures
            match hint_data.kind {
                HintKind::AddSegment => add_segment_post(*old(vm), *final(vm), r)
                    && final(exec_scopes).stack() == old(exec_scopes).stack(),
                HintKind::EnterScope => enter_scope_post(
                    *old(exec_scopes),
                    *final(exec_scopes),
                    r,
                ) && *final(vm) == *old(vm),
                HintKind::ExitScope => exit_scope_post(*old(exec_scopes), *final(exec_scopes), r)
                    && *final(vm) == *old(vm),
                HintKind::MemcpyEnterScope => memcpy_enter_scope_post(
                    *old(vm),
                    *final(vm),
                    *old(exec_scopes),
                    *final(exec_scopes),
                    hint_data.ids_data@,
                    hint_data.ap_tracking,
                    r,
                ),
                HintKind::MemcpyContinueCopying => memcpy_continue_copying_post(
                    *old(vm),
                    *final(vm),
                    *old(exec_scopes),
                    *final(exec_scopes),
                    hint_data.ids_data@,
                    hint_data.ap_tracking,
                    r,
                ),
            },
    {
        match hint_data.kind {
            HintKind::AddSegment => add_segment(vm),
            HintKind::EnterScope => enter_scope(exec_scopes),
            HintKind::ExitScope => exit_scope(exec_scopes),
            HintKind::MemcpyEnterScope => memcpy_enter_scope(
                vm,
                exec_scopes,
                &hint_data.ids_data,
                &hint_data.ap_tracking,
            ),
            HintKind::MemcpyContinueCopying => memcpy_continue_copying(
                vm,
                exec_scopes,
                &hint_data.ids_data,
                &hint_data.ap_tracking,
            ),
        }
    }
}

/// A dangling id at one entry makes the whole joined table undefined.
proof fn lemma_joined_ids_dangling(
    ref_ids: Seq<(String, usize)>,
    refs: Seq<(usize, HintReference)>,
    i: int,
)
    requires
        0 <= i < ref_ids.len(),
        id_of(refs, ref_ids[i].1) is None,
    ensures
        joined_ids(ref_ids, refs) is None,
    decreases ref_ids.len(),
{
    if ref_ids.len() > 0 {
        if i < ref_ids.len() - 1 {
            assert(ref_ids.drop_last() =~= ref_ids.subrange(0, ref_ids.len() - 1));
            lemma_joined_ids_dangling(ref_ids.drop_last(), refs, i);
        }
    }
}

/// Which canonical hint a body is, matching `hint_kind`.
fn recognize_hint(hint_code: &str) -> (r: Option<HintKind>)
    ensures
        r == hint_kind(hint_code@),
{
    let code: String = hint_code.to_owned();
    if code == "memory[ap] = segments.add()".to_owned() {
        Some(HintKind::AddSegment)
    } else if code == "vm_enter_scope()".to_owned() {
        Some(HintKind::EnterScope)
    } else if code == "vm_exit_scope()".to_owned() {
        Some(HintKind::ExitScope)
    } else if code == "vm_enter_scope({'n': ids.len})".to_owned() {
        Some(HintKind::MemcpyEnterScope)
    } else if code == "n -= 1\nids.continue_copying = 1 if n > 0 else 0".to_owned() {
        Some(HintKind::MemcpyContinueCopying)
    } else {
        None
    }
}

} // verus!
