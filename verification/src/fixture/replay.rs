//! Replaying answers: how a series of answers may be split and joined.

use crate::il2cpp::api::Il2CppApi;
use crate::il2cpp::functions::Entry;
use crate::il2cpp::types::MethodLayout;
use crate::protocol::{ResponseView, Step};
use crate::walker::{replayed, Mode, Phase, WalkerView};
use vstd::prelude::*;

verus! {

/// Every entry point of the runtime is bound.
pub open spec fn all_bound(api: Il2CppApi) -> bool {
    forall|entry: Entry| (#[trigger] api.functions.entry(entry)) is Some
}

/// The walk as it stands after its first question.
pub open spec fn begun(api: Il2CppApi, layout: MethodLayout, mode: Mode) -> (WalkerView, Step) {
    WalkerView::initial(api, layout, mode).asked(Phase::Domain, Entry::DomainGet, 0, 0)
}

/// Answers given one after the other are answers given in one go.
pub proof fn lemma_replayed_push(
    start: (WalkerView, Step),
    answers: Seq<ResponseView>,
    answer: ResponseView,
)
    ensures
        replayed(start, answers.push(answer)) == replayed(start, answers).0.next(answer),
{
    assert(answers.push(answer).drop_last() =~= answers);
}

/// A series of answers may be split anywhere.
pub proof fn lemma_replayed_concat(
    start: (WalkerView, Step),
    first: Seq<ResponseView>,
    second: Seq<ResponseView>,
)
    ensures
        replayed(start, first + second) == replayed(replayed(start, first), second),
    decreases second.len(),
{
    if second.len() == 0 {
        assert(first + second =~= first);
    } else {
        lemma_replayed_concat(start, first, second.drop_last());
        assert((first + second).drop_last() =~= first + second.drop_last());
        assert((first + second).last() == second.last());
    }
}

/// What a walk does with its answers depends on where it stands, not on
/// what it asked last.
pub proof fn lemma_replayed_start(
    first: (WalkerView, Step),
    second: (WalkerView, Step),
    answers: Seq<ResponseView>,
)
    requires
        first.0 == second.0,
        answers.len() > 0,
    ensures
        replayed(first, answers) == replayed(second, answers),
    decreases answers.len(),
{
    if answers.len() > 1 {
        lemma_replayed_start(first, second, answers.drop_last());
    } else {
        assert(replayed(first, answers.drop_last()) == first);
        assert(replayed(second, answers.drop_last()) == second);
    }
}

} // verus!
