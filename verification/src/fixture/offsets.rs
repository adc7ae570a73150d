//! The classes of an image as the walk for the method offsets gathers
//! them.

use crate::fixture::model::{sound_classes, sound_methods, ClassModel, MethodModel};
use crate::fixture::replay::{
    all_bound, lemma_replayed_concat, lemma_replayed_push, lemma_replayed_start,
};
use crate::il2cpp::functions::Entry;
use crate::il2cpp::module::Module;
use crate::il2cpp::types::{Il2CppClass, MethodInfo};
use crate::metadata::ClassView;
use crate::outputs::methoddumper::{
    lemma_recorded_onto_concat, qualified_name, recorded, recorded_onto,
};
use crate::protocol::{Query, ResponseView, Step};
use crate::walker::{blank_class, replayed, Mode, Phase, Position, WalkerView};
use vstd::prelude::*;
use vstd::utf8::decode_utf8;

verus! {

/// What the runtime answers while one method is looked at for the
/// offsets: the method, its code pointer and, where the pointer lies
/// inside the module, its name.
pub open spec fn filed_answers(m: MethodModel, module: Module) -> Seq<ResponseView> {
    seq![ResponseView::Cursor { item: m.handle, cursor: m.cursor }, ResponseView::Word(m.pointer)]
        + if module.contains(m.pointer) {
        seq![ResponseView::Text(Some(m.name))]
    } else {
        Seq::empty()
    }
}

pub open spec fn all_filed_answers(methods: Seq<MethodModel>, module: Module) -> Seq<ResponseView>
    decreases methods.len(),
{
    if methods.len() == 0 {
        Seq::empty()
    } else {
        all_filed_answers(methods.drop_last(), module) + filed_answers(methods.last(), module)
    }
}

/// The methods of a class that count, each with its fully-qualified name
/// and its offset inside the module.
pub open spec fn counted_methods(
    namespace: Seq<char>,
    class: Seq<char>,
    methods: Seq<MethodModel>,
    module: Module,
) -> Seq<(Seq<char>, u64)>
    decreases methods.len(),
{
    if methods.len() == 0 {
        Seq::empty()
    } else {
        let front = counted_methods(namespace, class, methods.drop_last(), module);
        let m = methods.last();
        if module.contains(m.pointer) {
            front.push(
                (
                    qualified_name(namespace, class, decode_utf8(m.name)),
                    (m.pointer - module.handle) as u64,
                ),
            )
        } else {
            front
        }
    }
}

/// The walk behind one method.
pub open spec fn past_filed(w: WalkerView, m: MethodModel) -> WalkerView {
    WalkerView {
        at: Position {
            method: MethodInfo { address: m.handle },
            cursor: m.cursor,
            method_pointer: m.pointer,
            phase: Phase::MethodName,
            ..w.at
        },
        offsets: if w.api.game_assembly.contains(m.pointer) {
            recorded(
                w.offsets,
                qualified_name(w.record.namespace, w.record.name, decode_utf8(m.name)),
                (m.pointer - w.api.game_assembly.handle) as u64,
            )
        } else {
            w.offsets
        },
        ..w
    }
}

/// The walk behind a list of methods.
pub open spec fn past_all_filed(w: WalkerView, methods: Seq<MethodModel>) -> WalkerView
    decreases methods.len(),
{
    if methods.len() == 0 {
        w
    } else {
        past_filed(past_all_filed(w, methods.drop_last()), methods.last())
    }
}

/// The walk without what the offsets change while a class is walked.
pub open spec fn without_filed(w: WalkerView) -> WalkerView {
    WalkerView {
        at: Position {
            method: MethodInfo { address: 0 },
            cursor: 0,
            method_pointer: 0,
            phase: Phase::Start,
            ..w.at
        },
        offsets: Seq::empty(),
        ..w
    }
}

pub(crate) proof fn lemma_filed(w: WalkerView, m: MethodModel)
    requires
        all_bound(w.api),
        w.at.mode == Mode::Offsets,
        w.at.phase == Phase::Method,
        m.wf(),
    ensures
        replayed((w, Step::Finished), filed_answers(m, w.api.game_assembly)) == past_filed(
            w,
            m,
        ).next_method(),
{
    let start = (w, Step::Finished);
    let none = Seq::<ResponseView>::empty();
    let a = ResponseView::Cursor { item: m.handle, cursor: m.cursor };
    let b = ResponseView::Word(m.pointer);
    let c = ResponseView::Text(Some(m.name));
    assert(w.api.functions.entry(Entry::ClassGetMethods) is Some);
    assert(w.api.functions.entry(Entry::MethodGetName) is Some);
    lemma_replayed_push(start, none, a);
    lemma_replayed_push(start, none.push(a), b);
    lemma_replayed_push(start, none.push(a).push(b), c);
    let s1 = w.next(a);
    let w1 = WalkerView {
        at: Position {
            method: MethodInfo { address: m.handle },
            cursor: m.cursor,
            phase: Phase::MethodPointer,
            ..w.at
        },
        ..w
    };
    assert(s1 == (
        w1,
        Step::Ask(Query::ReadPointer { base: m.handle, offset: w.layout.method_pointer }),
    )) by {
        reveal(WalkerView::on_method);
    }
    let s2 = s1.0.next(b);
    let w2 = WalkerView { at: Position { method_pointer: m.pointer, ..w1.at }, ..w1 };
    if w.api.game_assembly.contains(m.pointer) {
        assert(filed_answers(m, w.api.game_assembly) =~= none.push(a).push(b).push(c));
        assert(s2 == w2.asked(Phase::MethodName, Entry::MethodGetName, m.handle, 0)) by {
            reveal(WalkerView::on_method_pointer);
        }
        assert(s2.0.next(c) == past_filed(w, m).next_method()) by {
            reveal(WalkerView::on_method_name);
        }
    } else {
        assert(filed_answers(m, w.api.game_assembly) =~= none.push(a).push(b));
        assert(s2 == past_filed(w, m).next_method()) by {
            reveal(WalkerView::on_method_pointer);
        }
    }
}

pub(crate) proof fn lemma_past_all_filed(w: WalkerView, methods: Seq<MethodModel>)
    ensures
        without_filed(past_all_filed(w, methods)) == without_filed(w),
        past_all_filed(w, methods).offsets == recorded_onto(
            w.offsets,
            counted_methods(w.record.namespace, w.record.name, methods, w.api.game_assembly),
        ),
    decreases methods.len(),
{
    if methods.len() > 0 {
        lemma_past_all_filed(w, methods.drop_last());
        let before = past_all_filed(w, methods.drop_last());
        assert(before.api == without_filed(before).api);
        assert(w.api == without_filed(w).api);
        assert(before.record == without_filed(before).record);
        assert(w.record == without_filed(w).record);
        let front = counted_methods(
            w.record.namespace,
            w.record.name,
            methods.drop_last(),
            w.api.game_assembly,
        );
        let m = methods.last();
        if w.api.game_assembly.contains(m.pointer) {
            let filed = (
                qualified_name(w.record.namespace, w.record.name, decode_utf8(m.name)),
                (m.pointer - w.api.game_assembly.handle) as u64,
            );
            assert(front.push(filed).drop_last() =~= front);
        }
    }
}

pub(crate) proof fn lemma_all_filed(w: WalkerView, methods: Seq<MethodModel>)
    requires
        all_bound(w.api),
        w.at.mode == Mode::Offsets,
        sound_methods(methods),
    ensures
        replayed(w.next_method(), all_filed_answers(methods, w.api.game_assembly))
            == past_all_filed(w, methods).next_method(),
    decreases methods.len(),
{
    if methods.len() > 0 {
        let front = methods.drop_last();
        assert(sound_methods(front)) by {
            assert forall|i: int| 0 <= i < front.len() implies (#[trigger] front[i]).wf() by {
                assert(front[i] == methods[i]);
            }
        }
        assert(methods[methods.len() - 1] == methods.last());
        lemma_all_filed(w, front);
        lemma_past_all_filed(w, front);
        let module = w.api.game_assembly;
        lemma_replayed_concat(
            w.next_method(),
            all_filed_answers(front, module),
            filed_answers(methods.last(), module),
        );
        let before = past_all_filed(w, front);
        assert(before.api == without_filed(before).api);
        assert(w.api == without_filed(w).api);
        assert(before.at.mode == without_filed(before).at.mode);
        assert(w.at.mode == without_filed(w).at.mode);
        assert(before.api.functions.entry(Entry::ClassGetMethods) is Some);
        let waiting = before.next_method();
        assert(waiting.0 == before.at_phase(Phase::Method));
        lemma_filed(waiting.0, methods.last());
        assert(filed_answers(methods.last(), module).len() > 0);
        lemma_replayed_start(
            waiting,
            (waiting.0, Step::Finished),
            filed_answers(methods.last(), module),
        );
        assert(past_filed(waiting.0, methods.last()) == past_filed(before, methods.last()));
    }
}

/// What the runtime answers while one slot of an image is walked for the
/// offsets: a null for an empty slot, otherwise the class, its name, its
/// namespace and its methods, ended by a null.
pub open spec fn filed_class_answers(slot: Option<ClassModel>, module: Module) -> Seq<
    ResponseView,
> {
    match slot {
        None => seq![ResponseView::Word(0)],
        Some(c) => seq![
            ResponseView::Word(c.handle),
            ResponseView::Text(Some(c.name)),
            ResponseView::Text(Some(c.namespace)),
        ] + all_filed_answers(c.methods, module) + seq![
            ResponseView::Cursor { item: 0, cursor: c.methods_end },
        ],
    }
}

pub open spec fn filed_classes_answers(slots: Seq<Option<ClassModel>>, module: Module) -> Seq<
    ResponseView,
>
    decreases slots.len(),
{
    if slots.len() == 0 {
        Seq::empty()
    } else {
        filed_classes_answers(slots.drop_last(), module) + filed_class_answers(
            slots.last(),
            module,
        )
    }
}

/// The methods that count in the slots of an image, class after class.
pub open spec fn counted_in_classes(slots: Seq<Option<ClassModel>>, module: Module) -> Seq<
    (Seq<char>, u64),
>
    decreases slots.len(),
{
    if slots.len() == 0 {
        Seq::empty()
    } else {
        match slots.last() {
            None => counted_in_classes(slots.drop_last(), module),
            Some(c) => counted_in_classes(slots.drop_last(), module) + counted_methods(
                decode_utf8(c.namespace),
                decode_utf8(c.name),
                c.methods,
                module,
            ),
        }
    }
}

/// The walk that knows the name and the namespace of a class.
pub open spec fn named(w: WalkerView, c: ClassModel) -> WalkerView {
    WalkerView {
        at: Position {
            class: Il2CppClass { address: c.handle },
            cursor: 0,
            phase: Phase::Method,
            ..w.at
        },
        record: ClassView {
            name: decode_utf8(c.name),
            namespace: decode_utf8(c.namespace),
            ..blank_class()
        },
        ..w
    }
}

/// The walk behind one slot of an image.
pub open spec fn past_filed_class(w: WalkerView, slot: Option<ClassModel>) -> WalkerView {
    match slot {
        None => WalkerView {
            at: Position {
                class_index: (w.at.class_index + 1) as usize,
                phase: Phase::Method,
                ..w.at
            },
            ..w
        },
        Some(c) => {
            let g = past_all_filed(named(w, c), c.methods);
            WalkerView {
                at: Position {
                    class_index: (g.at.class_index + 1) as usize,
                    phase: Phase::Method,
                    ..g.at
                },
                ..g
            }
        },
    }
}

pub open spec fn past_filed_classes(w: WalkerView, slots: Seq<Option<ClassModel>>) -> WalkerView
    decreases slots.len(),
{
    if slots.len() == 0 {
        w
    } else {
        past_filed_class(past_filed_classes(w, slots.drop_last()), slots.last())
    }
}

/// The walk without what the offsets change while an image is walked.
pub open spec fn without_filed_class(w: WalkerView) -> WalkerView {
    WalkerView {
        at: Position {
            class: Il2CppClass { address: 0 },
            class_index: 0,
            ..without_filed(w).at
        },
        record: blank_class(),
        ..without_filed(w)
    }
}

pub(crate) proof fn lemma_past_filed_class(w: WalkerView, slot: Option<ClassModel>)
    requires
        w.at.class_index < usize::MAX,
    ensures
        without_filed_class(past_filed_class(w, slot)) == without_filed_class(w),
        past_filed_class(w, slot).at.class_index == w.at.class_index + 1,
        past_filed_class(w, slot).offsets == recorded_onto(
            w.offsets,
            match slot {
                Some(c) => counted_methods(
                    decode_utf8(c.namespace),
                    decode_utf8(c.name),
                    c.methods,
                    w.api.game_assembly,
                ),
                None => Seq::empty(),
            },
        ),
        past_filed_class(w, slot) == past_filed_class(w.at_phase(Phase::Class), slot),
{
    match slot {
        None => {},
        Some(c) => {
            let n = named(w, c);
            lemma_past_all_filed(n, c.methods);
            let g = past_all_filed(n, c.methods);
            assert(g.at.class_index == without_filed(g).at.class_index);
            assert(n.at.class_index == without_filed(n).at.class_index);
            assert(named(w.at_phase(Phase::Class), c) == n);
            assert(without_filed_class(g) == without_filed_class(n));
        },
    }
}

pub(crate) proof fn lemma_filed_class(w: WalkerView, slot: Option<ClassModel>)
    requires
        all_bound(w.api),
        w.at.mode == Mode::Offsets,
        w.at.phase == Phase::Class,
        slot matches Some(c) ==> c.wf(),
    ensures
        replayed((w, Step::Finished), filed_class_answers(slot, w.api.game_assembly))
            == past_filed_class(w, slot).next_class(),
{
    let start = (w, Step::Finished);
    let none = Seq::<ResponseView>::empty();
    let module = w.api.game_assembly;
    assert(w.api.functions.entry(Entry::ImageGetClass) is Some);
    assert(w.api.functions.entry(Entry::ClassGetName) is Some);
    assert(w.api.functions.entry(Entry::ClassGetNamespace) is Some);
    assert(w.api.functions.entry(Entry::ClassGetMethods) is Some);
    match slot {
        None => {
            assert(filed_class_answers(slot, module) =~= none.push(ResponseView::Word(0)));
            lemma_replayed_push(start, none, ResponseView::Word(0));
            reveal(WalkerView::on_class);
        },
        Some(c) => {
            let a = ResponseView::Word(c.handle);
            let b = ResponseView::Text(Some(c.name));
            let d = ResponseView::Text(Some(c.namespace));
            let e = ResponseView::Cursor { item: 0, cursor: c.methods_end };
            let head = none.push(a).push(b).push(d);
            lemma_replayed_push(start, none, a);
            lemma_replayed_push(start, none.push(a), b);
            lemma_replayed_push(start, none.push(a).push(b), d);
            let s1 = w.next(a);
            let w1 = WalkerView {
                at: Position { class: Il2CppClass { address: c.handle }, ..w.at },
                record: blank_class(),
                ..w
            };
            assert(s1 == w1.asked(Phase::ClassName, Entry::ClassGetName, c.handle, 0)) by {
                reveal(WalkerView::on_class);
            }
            let s2 = s1.0.next(b);
            let w2 = WalkerView {
                record: ClassView { name: decode_utf8(c.name), ..s1.0.record },
                ..s1.0
            };
            assert(s2 == w2.asked(Phase::ClassNamespace, Entry::ClassGetNamespace, c.handle, 0))
                by {
                reveal(WalkerView::on_class_name);
            }
            let s3 = s2.0.next(d);
            let n = named(w, c);
            assert(s3 == n.next_method()) by {
                reveal(WalkerView::on_class_namespace);
            }
            assert(replayed(start, head) == s3);
            lemma_all_filed(n, c.methods);
            lemma_past_all_filed(n, c.methods);
            let g = past_all_filed(n, c.methods);
            assert(g.api == without_filed(g).api);
            assert(n.api == without_filed(n).api);
            assert(g.at.mode == without_filed(g).at.mode);
            assert(n.at.mode == without_filed(n).at.mode);
            assert(g.api.functions.entry(Entry::ClassGetMethods) is Some);
            let s4 = replayed(s3, all_filed_answers(c.methods, module));
            assert(s4 == g.next_method());
            lemma_replayed_push(s4, none, e);
            assert(seq![e] =~= none.push(e));
            let s5 = replayed(s4, seq![e]);
            assert(s5 == past_filed_class(w, slot).next_class()) by {
                reveal(WalkerView::on_method);
            }
            let ab = head + all_filed_answers(c.methods, module);
            assert(filed_class_answers(slot, module) =~= ab + seq![e]);
            lemma_replayed_concat(start, head, all_filed_answers(c.methods, module));
            lemma_replayed_concat(start, ab, seq![e]);
        },
    }
}

pub(crate) proof fn lemma_past_filed_classes(w: WalkerView, slots: Seq<Option<ClassModel>>)
    requires
        w.at.class_index + slots.len() <= usize::MAX,
    ensures
        without_filed_class(past_filed_classes(w, slots)) == without_filed_class(w),
        past_filed_classes(w, slots).at.class_index == w.at.class_index + slots.len(),
        past_filed_classes(w, slots).offsets == recorded_onto(
            w.offsets,
            counted_in_classes(slots, w.api.game_assembly),
        ),
    decreases slots.len(),
{
    if slots.len() > 0 {
        let front = slots.drop_last();
        lemma_past_filed_classes(w, front);
        let before = past_filed_classes(w, front);
        lemma_past_filed_class(before, slots.last());
        assert(before.api == without_filed_class(before).api);
        assert(w.api == without_filed_class(w).api);
        let module = w.api.game_assembly;
        match slots.last() {
            None => {},
            Some(c) => {
                lemma_recorded_onto_concat(
                    w.offsets,
                    counted_in_classes(front, module),
                    counted_methods(
                        decode_utf8(c.namespace),
                        decode_utf8(c.name),
                        c.methods,
                        module,
                    ),
                );
            },
        }
    }
}

pub(crate) proof fn lemma_filed_classes(w: WalkerView, slots: Seq<Option<ClassModel>>)
    requires
        all_bound(w.api),
        w.at.mode == Mode::Offsets,
        w.at.class_index == 0,
        slots.len() <= w.at.class_count,
        sound_classes(slots),
    ensures
        replayed(w.next_class(), filed_classes_answers(slots, w.api.game_assembly))
            == past_filed_classes(w, slots).next_class(),
    decreases slots.len(),
{
    if slots.len() > 0 {
        let front = slots.drop_last();
        assert(sound_classes(front)) by {
            assert forall|i: int| 0 <= i < front.len() implies ((#[trigger] front[i]) matches Some(
                c,
            ) ==> c.wf()) by {
                assert(front[i] == slots[i]);
            }
        }
        assert(slots[slots.len() - 1] == slots.last());
        lemma_filed_classes(w, front);
        lemma_past_filed_classes(w, front);
        let module = w.api.game_assembly;
        lemma_replayed_concat(
            w.next_class(),
            filed_classes_answers(front, module),
            filed_class_answers(slots.last(), module),
        );
        let before = past_filed_classes(w, front);
        assert(before.api == without_filed_class(before).api);
        assert(w.api == without_filed_class(w).api);
        assert(before.at.mode == without_filed_class(before).at.mode);
        assert(w.at.mode == without_filed_class(w).at.mode);
        assert(before.at.class_count == without_filed_class(before).at.class_count);
        assert(w.at.class_count == without_filed_class(w).at.class_count);
        assert(before.api.functions.entry(Entry::ImageGetClass) is Some);
        let waiting = before.next_class();
        assert(waiting.0 == before.at_phase(Phase::Class));
        lemma_filed_class(waiting.0, slots.last());
        lemma_replayed_start(
            waiting,
            (waiting.0, Step::Finished),
            filed_class_answers(slots.last(), module),
        );
        lemma_past_filed_class(before, slots.last());
    }
}

/// Every method that counts lies inside the module.
pub(crate) proof fn lemma_counted_methods_inside(
    namespace: Seq<char>,
    class: Seq<char>,
    methods: Seq<MethodModel>,
    module: Module,
)
    ensures
        forall|i: int|
            0 <= i < counted_methods(namespace, class, methods, module).len() ==> (
            #[trigger] counted_methods(namespace, class, methods, module)[i]).1 < module.size,
    decreases methods.len(),
{
    if methods.len() > 0 {
        lemma_counted_methods_inside(namespace, class, methods.drop_last(), module);
        let front = counted_methods(namespace, class, methods.drop_last(), module);
        let all = counted_methods(namespace, class, methods, module);
        assert forall|i: int| 0 <= i < all.len() implies (#[trigger] all[i]).1 < module.size by {
            if i < front.len() {
                assert(all[i] == front[i]);
            }
        }
    }
}

pub(crate) proof fn lemma_counted_in_classes_inside(slots: Seq<Option<ClassModel>>, module: Module)
    ensures
        forall|i: int|
            0 <= i < counted_in_classes(slots, module).len() ==> (#[trigger] counted_in_classes(
                slots,
                module,
            )[i]).1 < module.size,
    decreases slots.len(),
{
    if slots.len() > 0 {
        lemma_counted_in_classes_inside(slots.drop_last(), module);
        let front = counted_in_classes(slots.drop_last(), module);
        let all = counted_in_classes(slots, module);
        match slots.last() {
            None => {},
            Some(c) => {
                let namespace = decode_utf8(c.namespace);
                let class = decode_utf8(c.name);
                lemma_counted_methods_inside(namespace, class, c.methods, module);
                let added = counted_methods(namespace, class, c.methods, module);
                assert forall|i: int| 0 <= i < all.len() implies (#[trigger] all[i]).1
                    < module.size by {
                    if i < front.len() {
                        assert(all[i] == front[i]);
                    } else {
                        assert(all[i] == added[i - front.len()]);
                    }
                }
            },
        }
    }
}

} // verus!
