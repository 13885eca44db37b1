//! The clock writes that the `set` and `reset` commands perform.
use vstd::prelude::*;
use crate::args::{
    lemma_parse_prefix_ok, option_values, parse_arg, select_gpus, selection, seq_result, ArgError,
};
use crate::decimal::i32_of;

verus! {

/// A clock domain of a GPU's performance state.
#[derive(Debug, Clone, Copy, PartialEq, Eq, Structural)]
pub enum ClockDomain {
    Graphics,
    Memory,
}

/// An offset of one clock domain, in kHz, in the GPU's highest performance
/// state (P0).
#[derive(Debug, Clone, Copy, PartialEq, Eq, Structural)]
pub struct ClockDelta {
    pub domain: ClockDomain,
    pub khz: i32,
}

/// A clock offset to write to the GPU of index `gpu`.
#[derive(Debug, Clone, Copy, PartialEq, Eq, Structural)]
pub struct ClockWrite {
    pub gpu: usize,
    pub delta: ClockDelta,
}

/// The writes that set the memory clock offset of each selected GPU to the
/// value given for it.
pub open spec fn memclock_plan(selected: Seq<usize>, memclock: Seq<i32>) -> Seq<ClockWrite> {
    Seq::new(
        selected.len(),
        |i: int|
            ClockWrite {
                gpu: selected[i],
                delta: ClockDelta { domain: ClockDomain::Memory, khz: memclock[i] },
            },
    )
}

/// What the `set` command does, given the GPU index texts `ids`, the texts
/// of its `--memclock` option (`None` where the option is absent) and the
/// number of installed GPUs: the checked writes, in the order of the
/// selection, or the first error in the arguments.
pub open spec fn set_plan(ids: Seq<String>, memclock: Option<Seq<String>>, gpu_count: nat) -> Result<
    Seq<ClockWrite>,
    ArgError,
> {
    match selection(ids, gpu_count) {
        Err(e) => Err(e),
        Ok(selected) => match memclock {
            None => Ok(Seq::empty()),
            Some(texts) => match option_values(texts, selected.len()) {
                Err(e) => Err(e),
                Ok(values) => Ok(memclock_plan(selected, values)),
            },
        },
    }
}

/// The view of an optional list of texts.
pub open spec fn texts_view(o: Option<Vec<String>>) -> Option<Seq<String>> {
    match o {
        Some(v) => Some(v@),
        None => None,
    }
}

/// The offsets that bring a GPU's graphics and memory clocks back to their
/// factory settings.
pub open spec fn reset_plan() -> Seq<ClockDelta> {
    seq![
        ClockDelta { domain: ClockDomain::Graphics, khz: 0 },
        ClockDelta { domain: ClockDomain::Memory, khz: 0 },
    ]
}

/// For N selected GPUs, `--memclock` must give exactly N values, or the
/// `set` command is refused; when it is accepted, each selected GPU gets the
/// value at its own place.
pub proof fn memclock_count_matches_selection(
    ids: Seq<String>,
    texts: Seq<String>,
    gpu_count: nat,
)
    requires
        selection(ids, gpu_count) is Ok,
    ensures
        texts.len() != selection(ids, gpu_count)->Ok_0.len() ==> set_plan(
            ids,
            Some(texts),
            gpu_count,
        ) is Err,
        set_plan(ids, Some(texts), gpu_count) is Ok ==> {
            let writes = set_plan(ids, Some(texts), gpu_count)->Ok_0;
            let selected = selection(ids, gpu_count)->Ok_0;
            &&& writes.len() == selected.len()
            &&& forall|i: int|
                0 <= i < writes.len() ==> {
                    &&& (#[trigger] writes[i]).gpu == selected[i]
                    &&& writes[i].delta.domain == ClockDomain::Memory
                    &&& Some(writes[i].delta.khz) == i32_of(texts[i]@)
                }
        },
{
    if set_plan(ids, Some(texts), gpu_count) is Ok {
        lemma_parse_prefix_ok(texts, texts.len());
    }
}

/// The writes that give each GPU of `selected` the memory clock offset at
/// the same place of `memclock`.
pub fn memclock_writes(selected: &Vec<usize>, memclock: &Vec<i32>) -> (r: Vec<ClockWrite>)
    requires
        selected.len() == memclock.len(),
    ensures
        r@ == memclock_plan(selected@, memclock@),
{
    let mut writes: Vec<ClockWrite> = Vec::new();
    let mut i: usize = 0;
    while i < selected.len()
        invariant
            i <= selected.len(),
            selected.len() == memclock.len(),
            writes@ == memclock_plan(selected@, memclock@).take(i as int),
        decreases selected.len() - i,
    {
        writes.push(
            ClockWrite {
                gpu: selected[i],
                delta: ClockDelta { domain: ClockDomain::Memory, khz: memclock[i] },
            },
        );
        i = i + 1;
        assert(writes@ =~= memclock_plan(selected@, memclock@).take(i as int));
    }
    assert(writes@ =~= memclock_plan(selected@, memclock@));
    writes
}

/// Checks the arguments of the `set` command and returns the clock writes it
/// performs: `ids` are the GPU index texts, `memclock` the texts of its
/// `--memclock` option, and `gpu_count` GPUs are installed.
pub fn plan_set(ids: &Vec<String>, memclock: &Option<Vec<String>>, gpu_count: usize) -> (r: Result<
    Vec<ClockWrite>,
    ArgError,
>)
    ensures
        seq_result(r) == set_plan(ids@, texts_view(*memclock), gpu_count as nat),
{
    let selected = match select_gpus(ids, gpu_count) {
        Ok(selected) => selected,
        Err(e) => {
            return Err(e);
        },
    };
    match parse_arg(memclock, selected.len()) {
        Err(e) => Err(e),
        Ok(None) => {
            let writes: Vec<ClockWrite> = Vec::new();
            assert(writes@ =~= Seq::<ClockWrite>::empty());
            Ok(writes)
        },
        Ok(Some(values)) => Ok(memclock_writes(&selected, &values)),
    }
}

/// The offsets that the `reset` command writes to every GPU: graphics and
/// memory clock back to no offset.
pub fn reset_deltas() -> (r: Vec<ClockDelta>)
    ensures
        r@ == reset_plan(),
{
    let r = vec![
        ClockDelta { domain: ClockDomain::Graphics, khz: 0 },
        ClockDelta { domain: ClockDomain::Memory, khz: 0 },
    ];
    assert(r@ =~= reset_plan());
    r
}

} // verus!
