//! The classes of an image as the walk for the pseudo-source gathers them.

use crate::fixture::model::{
    classes_of, fields_of, methods_of, sound_classes, ClassModel, ParentModel,
};
use crate::fixture::replay::{
    all_bound, lemma_replayed_concat, lemma_replayed_push, lemma_replayed_start,
};
use crate::fixture::source::{
    fields_answers, lemma_fields, lemma_methods, lemma_past_fields, lemma_past_methods,
    methods_answers, past_fields, past_methods, without_members,
};
use crate::il2cpp::functions::Entry;
use crate::il2cpp::types::Il2CppClass;
use crate::metadata::ClassView;
use crate::outputs::csdumper::{class_text, classes_text};
use crate::protocol::{ResponseView, Step};
use crate::walker::{blank_class, replayed, Mode, Phase, Position, WalkerView};
use vstd::prelude::*;
use vstd::utf8::decode_utf8;

verus! {

/// What the runtime answers to the question for the base class and, where
/// there is one, for its name.
pub open spec fn parent_answers(parent: Option<ParentModel>) -> Seq<ResponseView> {
    match parent {
        None => seq![ResponseView::Word(0)],
        Some(p) => seq![ResponseView::Word(p.handle), ResponseView::Text(Some(p.name))],
    }
}

/// What the runtime answers before the members of a class are asked for.
pub open spec fn head_answers(c: ClassModel) -> Seq<ResponseView> {
    seq![
        ResponseView::Word(c.handle),
        ResponseView::Text(Some(c.namespace)),
        ResponseView::Signed(c.flags),
        ResponseView::Flag(c.is_valuetype),
        ResponseView::Flag(c.is_enum),
        ResponseView::Text(Some(c.name)),
    ] + parent_answers(c.parent)
}

/// What the runtime answers while one slot of an image is gathered for
/// the pseudo-source: a null for an empty slot, otherwise the class, what
/// its header shows, its fields and its methods, each sequence ended by a
/// null.
pub open spec fn class_answers(slot: Option<ClassModel>) -> Seq<ResponseView> {
    match slot {
        None => seq![ResponseView::Word(0)],
        Some(c) => head_answers(c) + fields_answers(c.fields) + seq![
            ResponseView::Cursor { item: 0, cursor: c.fields_end },
        ] + methods_answers(c.methods) + seq![
            ResponseView::Cursor { item: 0, cursor: c.methods_end },
        ],
    }
}

pub open spec fn classes_answers(slots: Seq<Option<ClassModel>>) -> Seq<ResponseView>
    decreases slots.len(),
{
    if slots.len() == 0 {
        Seq::empty()
    } else {
        classes_answers(slots.drop_last()) + class_answers(slots.last())
    }
}

/// The walk that knows the header of a class and none of its members.
pub open spec fn described(w: WalkerView, c: ClassModel) -> WalkerView {
    WalkerView {
        at: Position {
            class: Il2CppClass { address: c.handle },
            cursor: 0,
            phase: Phase::Field,
            ..w.at
        },
        record: ClassView { fields: Seq::empty(), methods: Seq::empty(), ..c.view() },
        ..w
    }
}

/// The walk between the fields and the methods of a class.
pub open spec fn between(w: WalkerView) -> WalkerView {
    WalkerView { at: Position { cursor: 0, phase: Phase::Method, ..w.at }, ..w }
}

/// The walk that has gathered all members of a class.
pub open spec fn gathered(w: WalkerView, c: ClassModel) -> WalkerView {
    past_methods(between(past_fields(described(w, c), c.fields)), c.methods)
}

/// The walk behind one slot of an image.
pub open spec fn past_class(w: WalkerView, slot: Option<ClassModel>) -> WalkerView {
    match slot {
        None => WalkerView {
            at: Position {
                class_index: (w.at.class_index + 1) as usize,
                phase: Phase::Method,
                ..w.at
            },
            ..w
        },
        Some(c) => {
            let g = gathered(w, c);
            WalkerView {
                at: Position {
                    class_index: (g.at.class_index + 1) as usize,
                    phase: Phase::Method,
                    ..g.at
                },
                text: g.text + class_text(g.record, g.api.game_assembly.handle),
                ..g
            }
        },
    }
}

/// The walk behind a list of slots.
pub open spec fn past_classes(w: WalkerView, slots: Seq<Option<ClassModel>>) -> WalkerView
    decreases slots.len(),
{
    if slots.len() == 0 {
        w
    } else {
        past_class(past_classes(w, slots.drop_last()), slots.last())
    }
}

/// The walk without what belongs to the class it is in.
pub open spec fn without_class(w: WalkerView) -> WalkerView {
    WalkerView {
        at: Position {
            class: Il2CppClass { address: 0 },
            class_index: 0,
            ..without_members(w).at
        },
        record: blank_class(),
        text: Seq::empty(),
        ..without_members(w)
    }
}

pub(crate) proof fn lemma_gathered(w: WalkerView, c: ClassModel)
    requires
        w.field_type == Seq::<char>::empty(),
        c.wf(),
    ensures
        without_class(gathered(w, c)) == without_class(w),
        gathered(w, c).at.class_index == w.at.class_index,
        gathered(w, c).record == c.view(),
        gathered(w, c).text == w.text,
        gathered(w, c).field_type == Seq::<char>::empty(),
        gathered(w, c) == gathered(w.at_phase(Phase::Class), c),
{
    let d = described(w, c);
    lemma_past_fields(d, c.fields);
    let f = past_fields(d, c.fields);
    assert(f.record.fields =~= fields_of(c.fields));
    let b = between(f);
    lemma_past_methods(b, c.methods);
    let g = past_methods(b, c.methods);
    assert(g.record.methods =~= methods_of(c.methods));
    assert(without_members(f) == without_members(d));
    assert(without_members(b) == without_members(f));
    assert(without_members(g) == without_members(d));
    assert(g.record.fields == fields_of(c.fields));
    assert(without_members(g).record == without_members(d).record);
    assert(g.record == c.view());
    assert(g.at.class_index == without_members(g).at.class_index);
    assert(g.text == without_members(g).text);
    assert(g.field_type == f.field_type) by {
        lemma_methods_keep_field_type(b, c.methods);
    }
    assert(described(w.at_phase(Phase::Class), c) == d);
    assert(without_class(g) == without_class(w));
}

proof fn lemma_methods_keep_field_type(w: WalkerView, methods: Seq<crate::fixture::model::MethodModel>)
    ensures
        past_methods(w, methods).field_type == w.field_type,
    decreases methods.len(),
{
    if methods.len() > 0 {
        lemma_methods_keep_field_type(w, methods.drop_last());
        let before = past_methods(w, methods.drop_last());
        let m = methods.last();
        lemma_params_keep_field_type(crate::fixture::source::opened_method(before, m), m.params);
    }
}

proof fn lemma_params_keep_field_type(w: WalkerView, types: Seq<crate::fixture::model::TypeModel>)
    ensures
        crate::fixture::source::past_params(w, types).field_type == w.field_type,
    decreases types.len(),
{
    if types.len() > 0 {
        lemma_params_keep_field_type(w, types.drop_last());
    }
}

pub(crate) proof fn lemma_past_class(w: WalkerView, slot: Option<ClassModel>)
    requires
        w.field_type == Seq::<char>::empty(),
        w.at.class_index < usize::MAX,
        slot matches Some(c) ==> c.wf(),
    ensures
        without_class(past_class(w, slot)) == without_class(w),
        past_class(w, slot).at.class_index == w.at.class_index + 1,
        past_class(w, slot).field_type == Seq::<char>::empty(),
        past_class(w, slot).text == w.text + match slot {
            Some(c) => class_text(c.view(), w.api.game_assembly.handle),
            None => Seq::empty(),
        },
        past_class(w, slot) == past_class(w.at_phase(Phase::Class), slot),
{
    match slot {
        None => {
            assert(w.text + Seq::<char>::empty() =~= w.text);
        },
        Some(c) => {
            lemma_gathered(w, c);
            let g = gathered(w, c);
            assert(g.api == without_class(g).api);
            assert(w.api == without_class(w).api);
        },
    }
}

pub(crate) proof fn lemma_class(w: WalkerView, slot: Option<ClassModel>)
    requires
        all_bound(w.api),
        w.at.mode == Mode::Classes,
        w.at.phase == Phase::Class,
        w.field_type == Seq::<char>::empty(),
        slot matches Some(c) ==> c.wf(),
    ensures
        replayed((w, Step::Finished), class_answers(slot)) == past_class(w, slot).next_class(),
{
    let start = (w, Step::Finished);
    let none = Seq::<ResponseView>::empty();
    assert(w.api.functions.entry(Entry::ImageGetClass) is Some);
    match slot {
        None => {
            assert(class_answers(slot) =~= none.push(ResponseView::Word(0)));
            lemma_replayed_push(start, none, ResponseView::Word(0));
            reveal(WalkerView::on_class);
        },
        Some(c) => {
            lemma_class_head(w, c);
            let d = described(w, c);
            let fields_end = seq![ResponseView::Cursor { item: 0, cursor: c.fields_end }];
            let methods_end = seq![ResponseView::Cursor { item: 0, cursor: c.methods_end }];
            let s0 = replayed(start, head_answers(c));
            assert(s0 == d.next_field());
            // the fields
            lemma_fields(d, c.fields);
            lemma_past_fields(d, c.fields);
            let f = past_fields(d, c.fields);
            assert(f.api == without_members(f).api);
            assert(d.api == without_members(d).api);
            assert(f.at.mode == without_members(f).at.mode);
            assert(d.at.mode == without_members(d).at.mode);
            assert(f.api.functions.entry(Entry::ClassGetFields) is Some);
            assert(f.api.functions.entry(Entry::ClassGetMethods) is Some);
            let s1 = replayed(s0, fields_answers(c.fields));
            assert(s1 == f.next_field());
            // the end of the fields
            assert(fields_end =~= none.push(fields_end[0]));
            lemma_replayed_push(s1, none, fields_end[0]);
            let s2 = replayed(s1, fields_end);
            let b = between(f);
            assert(s2 == b.next_method()) by {
                reveal(WalkerView::on_field);
            }
            // the methods
            lemma_methods(b, c.methods);
            lemma_past_methods(b, c.methods);
            let g = past_methods(b, c.methods);
            assert(g.api == without_members(g).api);
            assert(b.api == without_members(b).api);
            assert(g.at.mode == without_members(g).at.mode);
            assert(b.at.mode == without_members(b).at.mode);
            assert(g.api.functions.entry(Entry::ClassGetMethods) is Some);
            let s3 = replayed(s2, methods_answers(c.methods));
            assert(s3 == g.next_method());
            // the end of the methods
            assert(methods_end =~= none.push(methods_end[0]));
            lemma_replayed_push(s3, none, methods_end[0]);
            let s4 = replayed(s3, methods_end);
            assert(s4 == past_class(w, slot).next_class()) by {
                reveal(WalkerView::on_method);
            }
            // the answers in one piece
            let ab = head_answers(c) + fields_answers(c.fields);
            let abc = ab + fields_end;
            let abcd = abc + methods_answers(c.methods);
            assert(class_answers(slot) =~= abcd + methods_end);
            lemma_replayed_concat(start, head_answers(c), fields_answers(c.fields));
            lemma_replayed_concat(start, ab, fields_end);
            lemma_replayed_concat(start, abc, methods_answers(c.methods));
            lemma_replayed_concat(start, abcd, methods_end);
        },
    }
}

proof fn lemma_class_head(w: WalkerView, c: ClassModel)
    requires
        all_bound(w.api),
        w.at.mode == Mode::Classes,
        w.at.phase == Phase::Class,
        c.wf(),
    ensures
        replayed((w, Step::Finished), head_answers(c)) == described(w, c).next_field(),
{
    let start = (w, Step::Finished);
    let none = Seq::<ResponseView>::empty();
    let a = ResponseView::Word(c.handle);
    let b = ResponseView::Text(Some(c.namespace));
    let d = ResponseView::Signed(c.flags);
    let e = ResponseView::Flag(c.is_valuetype);
    let f = ResponseView::Flag(c.is_enum);
    let g = ResponseView::Text(Some(c.name));
    let head = none.push(a).push(b).push(d).push(e).push(f).push(g);
    assert(head_answers(c) =~= head + parent_answers(c.parent));
    lemma_replayed_concat(start, head, parent_answers(c.parent));
    lemma_replayed_push(start, none, a);
    lemma_replayed_push(start, none.push(a), b);
    lemma_replayed_push(start, none.push(a).push(b), d);
    lemma_replayed_push(start, none.push(a).push(b).push(d), e);
    lemma_replayed_push(start, none.push(a).push(b).push(d).push(e), f);
    lemma_replayed_push(start, none.push(a).push(b).push(d).push(e).push(f), g);
    assert(w.api.functions.entry(Entry::ImageGetClass) is Some);
    assert(w.api.functions.entry(Entry::ClassGetNamespace) is Some);
    assert(w.api.functions.entry(Entry::ClassGetFlags) is Some);
    assert(w.api.functions.entry(Entry::ClassIsValuetype) is Some);
    assert(w.api.functions.entry(Entry::ClassIsEnum) is Some);
    assert(w.api.functions.entry(Entry::ClassGetName) is Some);
    assert(w.api.functions.entry(Entry::ClassGetParent) is Some);
    assert(w.api.functions.entry(Entry::ClassGetFields) is Some);
    let s1 = w.next(a);
    let w1 = WalkerView {
        at: Position { class: Il2CppClass { address: c.handle }, ..w.at },
        record: blank_class(),
        ..w
    };
    assert(s1 == w1.asked(Phase::ClassNamespace, Entry::ClassGetNamespace, c.handle, 0)) by {
        reveal(WalkerView::on_class);
    }
    let s2 = s1.0.next(b);
    let w2 = WalkerView {
        record: ClassView { namespace: decode_utf8(c.namespace), ..s1.0.record },
        ..s1.0
    };
    assert(s2 == w2.asked(Phase::ClassFlags, Entry::ClassGetFlags, c.handle, 0)) by {
        reveal(WalkerView::on_class_namespace);
    }
    let s3 = s2.0.next(d);
    let w3 = WalkerView { record: ClassView { flags: c.flags, ..s2.0.record }, ..s2.0 };
    assert(s3 == w3.asked(Phase::ClassValuetype, Entry::ClassIsValuetype, c.handle, 0)) by {
        reveal(WalkerView::on_class_flags);
    }
    let s4 = s3.0.next(e);
    let w4 = WalkerView {
        record: ClassView { is_valuetype: c.is_valuetype, ..s3.0.record },
        ..s3.0
    };
    assert(s4 == w4.asked(Phase::ClassEnum, Entry::ClassIsEnum, c.handle, 0)) by {
        reveal(WalkerView::on_class_valuetype);
    }
    let s5 = s4.0.next(f);
    let w5 = WalkerView { record: ClassView { is_enum: c.is_enum, ..s4.0.record }, ..s4.0 };
    assert(s5 == w5.asked(Phase::ClassName, Entry::ClassGetName, c.handle, 0)) by {
        reveal(WalkerView::on_class_enum);
    }
    let s6 = s5.0.next(g);
    let w6 = WalkerView { record: ClassView { name: decode_utf8(c.name), ..s5.0.record }, ..s5.0 };
    assert(s6 == w6.asked(Phase::ClassParent, Entry::ClassGetParent, c.handle, 0)) by {
        reveal(WalkerView::on_class_name);
    }
    assert(replayed(start, head) == s6);
    match c.parent {
        None => {
            let p = ResponseView::Word(0);
            assert(parent_answers(c.parent) =~= none.push(p));
            lemma_replayed_push(s6, none, p);
            assert(s6.0.next(p) == described(w, c).next_field()) by {
                reveal(WalkerView::on_class_parent);
            }
        },
        Some(parent) => {
            let p = ResponseView::Word(parent.handle);
            let q = ResponseView::Text(Some(parent.name));
            assert(parent_answers(c.parent) =~= none.push(p).push(q));
            lemma_replayed_push(s6, none, p);
            lemma_replayed_push(s6, none.push(p), q);
            let s7 = s6.0.next(p);
            assert(s7 == s6.0.asked(Phase::ParentName, Entry::ClassGetName, parent.handle, 0))
                by {
                reveal(WalkerView::on_class_parent);
            }
            assert(s7.0.next(q) == described(w, c).next_field()) by {
                reveal(WalkerView::on_parent_name);
            }
        },
    }
}

pub(crate) proof fn lemma_past_classes(w: WalkerView, slots: Seq<Option<ClassModel>>)
    requires
        w.field_type == Seq::<char>::empty(),
        w.at.class_index + slots.len() <= usize::MAX,
        sound_classes(slots),
    ensures
        without_class(past_classes(w, slots)) == without_class(w),
        past_classes(w, slots).at.class_index == w.at.class_index + slots.len(),
        past_classes(w, slots).field_type == Seq::<char>::empty(),
        past_classes(w, slots).text == w.text + classes_text(
            classes_of(slots),
            w.api.game_assembly.handle,
        ),
    decreases slots.len(),
{
    if slots.len() == 0 {
        assert(w.text + classes_text(classes_of(slots), w.api.game_assembly.handle) =~= w.text);
    } else {
        let front = slots.drop_last();
        assert(sound_classes(front)) by {
            assert forall|i: int| 0 <= i < front.len() implies ((#[trigger] front[i]) matches Some(
                c,
            ) ==> c.wf()) by {
                assert(front[i] == slots[i]);
            }
        }
        assert(slots[slots.len() - 1] == slots.last());
        lemma_past_classes(w, front);
        let before = past_classes(w, front);
        lemma_past_class(before, slots.last());
        assert(before.api == without_class(before).api);
        assert(w.api == without_class(w).api);
        let base = w.api.game_assembly.handle;
        match slots.last() {
            None => {
                assert(before.text + Seq::<char>::empty() =~= before.text);
            },
            Some(c) => {
                let classes = classes_of(front);
                assert(classes.push(c.view()).drop_last() =~= classes);
                assert(before.text + class_text(c.view(), base) =~= w.text + classes_text(
                    classes.push(c.view()),
                    base,
                ));
            },
        }
    }
}

pub(crate) proof fn lemma_classes(w: WalkerView, slots: Seq<Option<ClassModel>>)
    requires
        all_bound(w.api),
        w.at.mode == Mode::Classes,
        w.at.class_index == 0,
        slots.len() <= w.at.class_count,
        w.field_type == Seq::<char>::empty(),
        sound_classes(slots),
    ensures
        replayed(w.next_class(), classes_answers(slots)) == past_classes(w, slots).next_class(),
    decreases slots.len(),
{
    if slots.len() > 0 {
        let front = slots.drop_last();
        assert(sound_classes(front)) by {
            assert forall|i: int| 0 <= i < front.len() implies ((#[trigger] front[i]) matches Some(
                c,
            ) ==> c.wf()) by {
                assert(front[i] == slots[i]);
            }
        }
        assert(slots[slots.len() - 1] == slots.last());
        lemma_classes(w, front);
        lemma_past_classes(w, front);
        lemma_replayed_concat(w.next_class(), classes_answers(front), class_answers(slots.last()));
        let before = past_classes(w, front);
        assert(before.api == without_class(before).api);
        assert(w.api == without_class(w).api);
        assert(before.at.mode == without_class(before).at.mode);
        assert(w.at.mode == without_class(w).at.mode);
        assert(before.at.class_count == without_class(before).at.class_count);
        assert(w.at.class_count == without_class(w).at.class_count);
        assert(before.api.functions.entry(Entry::ImageGetClass) is Some);
        let waiting = before.next_class();
        assert(waiting.0 == before.at_phase(Phase::Class));
        lemma_class(waiting.0, slots.last());
        lemma_replayed_start(waiting, (waiting.0, Step::Finished), class_answers(slots.last()));
        lemma_past_class(before, slots.last());
    }
}

} // verus!
