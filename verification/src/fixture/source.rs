//! The members of a class as the walk for the pseudo-source gathers them:
//! parameters, methods and fields.

use crate::fixture::model::{
    fields_of, methods_of, params_of, sound_fields, sound_methods, sound_types, FieldModel,
    MethodModel, TypeModel,
};
use crate::fixture::replay::{
    all_bound, lemma_replayed_concat, lemma_replayed_push, lemma_replayed_start,
};
use crate::il2cpp::functions::Entry;
use crate::il2cpp::types::{FieldInfo, Il2CppType, MethodInfo};
use crate::metadata::ClassView;
use crate::protocol::{Query, ResponseView, Step};
use crate::walker::{replayed, Mode, Phase, Position, WalkerView};
use vstd::prelude::*;

verus! {

/// What the runtime answers while one parameter is gathered: the type,
/// its attribute bits, whether it is passed by reference and its name.
pub open spec fn param_answers(t: TypeModel) -> Seq<ResponseView> {
    seq![
        ResponseView::Word(t.handle),
        ResponseView::Unsigned(t.attrs),
        ResponseView::Flag(t.byref),
        ResponseView::Text(Some(t.name)),
    ]
}

pub open spec fn params_answers(types: Seq<TypeModel>) -> Seq<ResponseView>
    decreases types.len(),
{
    if types.len() == 0 {
        Seq::empty()
    } else {
        params_answers(types.drop_last()) + param_answers(types.last())
    }
}

/// The walk behind one parameter.
pub open spec fn past_param(w: WalkerView, t: TypeModel) -> WalkerView {
    WalkerView {
        at: Position {
            item_type: Il2CppType { address: t.handle },
            param_attrs: t.attrs,
            param_byref: t.byref,
            param_index: (w.at.param_index + 1) as u32,
            phase: Phase::ParamTypeName,
            ..w.at
        },
        params: w.params.push(t.param()),
        ..w
    }
}

/// The walk behind a list of parameters.
pub open spec fn past_params(w: WalkerView, types: Seq<TypeModel>) -> WalkerView
    decreases types.len(),
{
    if types.len() == 0 {
        w
    } else {
        past_param(past_params(w, types.drop_last()), types.last())
    }
}

/// The walk without what belongs to the parameter it is at.
pub open spec fn without_param(w: WalkerView) -> WalkerView {
    WalkerView {
        at: Position {
            item_type: Il2CppType { address: 0 },
            param_attrs: 0,
            param_byref: false,
            param_index: 0,
            phase: Phase::Start,
            ..w.at
        },
        params: Seq::empty(),
        ..w
    }
}

pub(crate) proof fn lemma_param(w: WalkerView, t: TypeModel)
    requires
        all_bound(w.api),
        w.at.phase == Phase::Param,
        t.wf(),
    ensures
        replayed((w, Step::Finished), param_answers(t)) == past_param(w, t).next_param(),
{
    let start = (w, Step::Finished);
    let none = Seq::<ResponseView>::empty();
    let a = ResponseView::Word(t.handle);
    let b = ResponseView::Unsigned(t.attrs);
    let c = ResponseView::Flag(t.byref);
    let d = ResponseView::Text(Some(t.name));
    assert(param_answers(t) =~= none.push(a).push(b).push(c).push(d));
    lemma_replayed_push(start, none, a);
    lemma_replayed_push(start, none.push(a), b);
    lemma_replayed_push(start, none.push(a).push(b), c);
    lemma_replayed_push(start, none.push(a).push(b).push(c), d);
    assert(w.api.functions.entry(Entry::MethodGetParam) is Some);
    assert(w.api.functions.entry(Entry::TypeGetAttrs) is Some);
    assert(w.api.functions.entry(Entry::TypeIsByref) is Some);
    assert(w.api.functions.entry(Entry::TypeGetName) is Some);
    let w1 = WalkerView {
        at: Position { item_type: Il2CppType { address: t.handle }, ..w.at },
        ..w
    };
    let s1 = w.next(a);
    assert(s1 == w1.asked(Phase::ParamAttrs, Entry::TypeGetAttrs, t.handle, 0)) by {
        reveal(WalkerView::on_param);
    }
    let w2 = WalkerView { at: Position { param_attrs: t.attrs, ..s1.0.at }, ..s1.0 };
    let s2 = s1.0.next(b);
    assert(s2 == w2.asked(Phase::ParamByref, Entry::TypeIsByref, t.handle, 0)) by {
        reveal(WalkerView::on_param_attrs);
    }
    let w3 = WalkerView { at: Position { param_byref: t.byref, ..s2.0.at }, ..s2.0 };
    let s3 = s2.0.next(c);
    assert(s3 == w3.asked(Phase::ParamTypeName, Entry::TypeGetName, t.handle, 0)) by {
        reveal(WalkerView::on_param_byref);
    }
    let s4 = s3.0.next(d);
    assert(s4 == past_param(w, t).next_param()) by {
        reveal(WalkerView::on_param_type_name);
    }
}

pub(crate) proof fn lemma_past_params(w: WalkerView, types: Seq<TypeModel>)
    requires
        w.at.param_index + types.len() <= u32::MAX,
    ensures
        without_param(past_params(w, types)) == without_param(w),
        past_params(w, types).at.param_index == w.at.param_index + types.len(),
        past_params(w, types).params == w.params + params_of(types),
    decreases types.len(),
{
    if types.len() == 0 {
        assert(w.params + params_of(types) =~= w.params);
    } else {
        lemma_past_params(w, types.drop_last());
        let before = past_params(w, types.drop_last());
        assert(before.params.push(types.last().param()) =~= w.params + params_of(types));
    }
}

pub(crate) proof fn lemma_params(w: WalkerView, types: Seq<TypeModel>)
    requires
        all_bound(w.api),
        w.at.param_index == 0,
        types.len() <= w.at.param_count,
        sound_types(types),
    ensures
        replayed(w.next_param(), params_answers(types)) == past_params(w, types).next_param(),
    decreases types.len(),
{
    if types.len() > 0 {
        let front = types.drop_last();
        assert(sound_types(front)) by {
            assert forall|i: int| 0 <= i < front.len() implies (#[trigger] front[i]).wf() by {
                assert(front[i] == types[i]);
            }
        }
        assert(types[types.len() - 1] == types.last());
        lemma_params(w, front);
        lemma_past_params(w, front);
        lemma_replayed_concat(w.next_param(), params_answers(front), param_answers(types.last()));
        let before = past_params(w, front);
        assert(without_param(before).api == without_param(w).api);
        assert(without_param(before).at.param_count == without_param(w).at.param_count);
        assert(before.api.functions.entry(Entry::MethodGetParam) is Some);
        let waiting = before.next_param();
        assert(waiting.0 == before.at_phase(Phase::Param));
        lemma_param(waiting.0, types.last());
        lemma_replayed_start(waiting, (waiting.0, Step::Finished), param_answers(types.last()));
        assert(past_param(waiting.0, types.last()) == past_param(before, types.last()));
    }
}

/// The walk without what belongs to the members of the class it is in.
pub open spec fn without_members(w: WalkerView) -> WalkerView {
    WalkerView {
        at: Position {
            cursor: 0,
            field: FieldInfo { address: 0 },
            method: MethodInfo { address: 0 },
            item_type: Il2CppType { address: 0 },
            param_count: 0,
            param_index: 0,
            field_flags: 0,
            field_offset: 0,
            method_pointer: 0,
            method_flags: 0,
            return_byref: false,
            param_attrs: 0,
            param_byref: false,
            phase: Phase::Start,
            ..w.at
        },
        record: ClassView { fields: Seq::empty(), methods: Seq::empty(), ..w.record },
        field_type: Seq::empty(),
        return_type: Seq::empty(),
        method_name: Seq::empty(),
        params: Seq::empty(),
        ..w
    }
}

/// What the runtime answers while one method is gathered for the
/// pseudo-source: the method, the two fields of its record, the type it
/// returns, its name, the number of its parameters and the parameters.
pub open spec fn method_answers(m: MethodModel) -> Seq<ResponseView> {
    seq![
        ResponseView::Cursor { item: m.handle, cursor: m.cursor },
        ResponseView::Word(m.pointer),
        ResponseView::Half(m.flags),
        ResponseView::Word(m.return_type.handle),
        ResponseView::Flag(m.return_type.byref),
        ResponseView::Text(Some(m.return_type.name)),
        ResponseView::Text(Some(m.name)),
        ResponseView::Unsigned(m.params.len() as u32),
    ] + params_answers(m.params)
}

pub open spec fn methods_answers(methods: Seq<MethodModel>) -> Seq<ResponseView>
    decreases methods.len(),
{
    if methods.len() == 0 {
        Seq::empty()
    } else {
        methods_answers(methods.drop_last()) + method_answers(methods.last())
    }
}

/// The walk that knows everything of a method but its parameters.
pub open spec fn opened_method(w: WalkerView, m: MethodModel) -> WalkerView {
    WalkerView {
        at: Position {
            method: MethodInfo { address: m.handle },
            cursor: m.cursor,
            method_pointer: m.pointer,
            method_flags: m.flags,
            item_type: Il2CppType { address: m.return_type.handle },
            return_byref: m.return_type.byref,
            param_count: m.params.len() as u32,
            param_index: 0,
            phase: Phase::ParamCount,
            ..w.at
        },
        return_type: m.return_type.text(),
        method_name: vstd::utf8::decode_utf8(m.name),
        params: Seq::empty(),
        ..w
    }
}

/// The walk after the method it has read in full has joined the class.
pub open spec fn closed_method(w: WalkerView) -> WalkerView {
    WalkerView {
        record: ClassView { methods: w.record.methods.push(w.finished_method()), ..w.record },
        return_type: Seq::empty(),
        method_name: Seq::empty(),
        params: Seq::empty(),
        ..w
    }
}

/// The walk behind one method.
pub open spec fn past_method(w: WalkerView, m: MethodModel) -> WalkerView {
    closed_method(past_params(opened_method(w, m), m.params))
}

/// The walk behind a list of methods.
pub open spec fn past_methods(w: WalkerView, methods: Seq<MethodModel>) -> WalkerView
    decreases methods.len(),
{
    if methods.len() == 0 {
        w
    } else {
        past_method(past_methods(w, methods.drop_last()), methods.last())
    }
}

pub(crate) proof fn lemma_past_method(w: WalkerView, m: MethodModel)
    requires
        m.params.len() <= u32::MAX,
    ensures
        without_members(past_method(w, m)) == without_members(w),
        past_method(w, m).record.fields == w.record.fields,
        past_method(w, m).record.methods == w.record.methods.push(m.view()),
        past_method(w, m).at.cursor == m.cursor,
        past_method(w, m) == past_method(w.at_phase(Phase::Method), m),
{
    let opened = opened_method(w, m);
    lemma_past_params(opened, m.params);
    let filled = past_params(opened, m.params);
    assert(without_param(filled) == without_param(opened));
    assert(filled.api == without_param(filled).api);
    assert(filled.layout == without_param(filled).layout);
    assert(filled.record == without_param(filled).record);
    assert(filled.field_type == without_param(filled).field_type);
    assert(filled.return_type == without_param(filled).return_type);
    assert(filled.method_name == without_param(filled).method_name);
    assert(filled.offsets == without_param(filled).offsets);
    assert(filled.text == without_param(filled).text);
    assert(filled.at.method_pointer == without_param(filled).at.method_pointer);
    assert(filled.at.method_flags == without_param(filled).at.method_flags);
    assert(filled.at.return_byref == without_param(filled).at.return_byref);
    assert(filled.at.cursor == without_param(filled).at.cursor);
    assert(filled.params =~= params_of(m.params));
    assert(filled.finished_method() == m.view());
    assert(without_members(closed_method(filled)).at == without_members(w).at) by {
        assert(without_param(filled).at == without_param(opened).at);
    }
    assert(opened_method(w.at_phase(Phase::Method), m) == opened);
}

pub(crate) proof fn lemma_method(w: WalkerView, m: MethodModel)
    requires
        all_bound(w.api),
        w.at.mode == Mode::Classes,
        w.at.phase == Phase::Method,
        m.wf(),
    ensures
        replayed((w, Step::Finished), method_answers(m)) == past_method(w, m).next_method(),
{
    let start = (w, Step::Finished);
    let none = Seq::<ResponseView>::empty();
    let a = ResponseView::Cursor { item: m.handle, cursor: m.cursor };
    let b = ResponseView::Word(m.pointer);
    let c = ResponseView::Half(m.flags);
    let d = ResponseView::Word(m.return_type.handle);
    let e = ResponseView::Flag(m.return_type.byref);
    let f = ResponseView::Text(Some(m.return_type.name));
    let g = ResponseView::Text(Some(m.name));
    let h = ResponseView::Unsigned(m.params.len() as u32);
    let head = none.push(a).push(b).push(c).push(d).push(e).push(f).push(g).push(h);
    assert(method_answers(m) =~= head + params_answers(m.params));
    lemma_replayed_concat(start, head, params_answers(m.params));
    lemma_replayed_push(start, none, a);
    lemma_replayed_push(start, none.push(a), b);
    lemma_replayed_push(start, none.push(a).push(b), c);
    lemma_replayed_push(start, none.push(a).push(b).push(c), d);
    lemma_replayed_push(start, none.push(a).push(b).push(c).push(d), e);
    lemma_replayed_push(start, none.push(a).push(b).push(c).push(d).push(e), f);
    lemma_replayed_push(start, none.push(a).push(b).push(c).push(d).push(e).push(f), g);
    lemma_replayed_push(start, none.push(a).push(b).push(c).push(d).push(e).push(f).push(g), h);
    assert(w.api.functions.entry(Entry::ClassGetMethods) is Some);
    assert(w.api.functions.entry(Entry::MethodGetReturnType) is Some);
    assert(w.api.functions.entry(Entry::TypeIsByref) is Some);
    assert(w.api.functions.entry(Entry::TypeGetName) is Some);
    assert(w.api.functions.entry(Entry::MethodGetName) is Some);
    assert(w.api.functions.entry(Entry::MethodGetParamCount) is Some);
    let s1 = w.next(a);
    let w1 = WalkerView {
        at: Position {
            method: MethodInfo { address: m.handle },
            cursor: m.cursor,
            phase: Phase::MethodPointer,
            ..w.at
        },
        ..w
    };
    assert(s1 == (
        w1,
        Step::Ask(Query::ReadPointer { base: m.handle, offset: w.layout.method_pointer }),
    )) by {
        reveal(WalkerView::on_method);
    }
    let s2 = s1.0.next(b);
    let w2 = WalkerView {
        at: Position { method_pointer: m.pointer, phase: Phase::MethodFlags, ..w1.at },
        ..w1
    };
    assert(s2 == (w2, Step::Ask(Query::ReadHalf { base: m.handle, offset: w.layout.flags })))
        by {
        reveal(WalkerView::on_method_pointer);
    }
    let s3 = s2.0.next(c);
    let w3 = WalkerView { at: Position { method_flags: m.flags, ..w2.at }, ..w2 };
    assert(s3 == w3.asked(Phase::ReturnType, Entry::MethodGetReturnType, m.handle, 0)) by {
        reveal(WalkerView::on_method_flags);
    }
    let s4 = s3.0.next(d);
    let w4 = WalkerView {
        at: Position { item_type: Il2CppType { address: m.return_type.handle }, ..s3.0.at },
        ..s3.0
    };
    assert(s4 == w4.asked(Phase::ReturnByref, Entry::TypeIsByref, m.return_type.handle, 0)) by {
        reveal(WalkerView::on_return_type);
    }
    let s5 = s4.0.next(e);
    let w5 = WalkerView {
        at: Position { return_byref: m.return_type.byref, ..s4.0.at },
        ..s4.0
    };
    assert(s5 == w5.asked(Phase::ReturnTypeName, Entry::TypeGetName, m.return_type.handle, 0))
        by {
        reveal(WalkerView::on_return_byref);
    }
    let s6 = s5.0.next(f);
    let w6 = WalkerView { return_type: m.return_type.text(), ..s5.0 };
    assert(s6 == w6.asked(Phase::MethodName, Entry::MethodGetName, m.handle, 0)) by {
        reveal(WalkerView::on_return_type_name);
    }
    let s7 = s6.0.next(g);
    let w7 = WalkerView { method_name: vstd::utf8::decode_utf8(m.name), ..s6.0 };
    assert(s7 == w7.asked(Phase::ParamCount, Entry::MethodGetParamCount, m.handle, 0)) by {
        reveal(WalkerView::on_method_name);
    }
    let s8 = s7.0.next(h);
    let opened = opened_method(w, m);
    assert(s8 == opened.next_param()) by {
        reveal(WalkerView::on_param_count);
    }
    lemma_params(opened, m.params);
    lemma_past_params(opened, m.params);
    let filled = past_params(opened, m.params);
    assert(without_param(filled).at.param_count == without_param(opened).at.param_count);
    assert(filled.at.param_index == filled.at.param_count);
}

pub(crate) proof fn lemma_past_methods(w: WalkerView, methods: Seq<MethodModel>)
    requires
        sound_methods(methods),
    ensures
        without_members(past_methods(w, methods)) == without_members(w),
        past_methods(w, methods).record.fields == w.record.fields,
        past_methods(w, methods).record.methods == w.record.methods + methods_of(methods),
    decreases methods.len(),
{
    if methods.len() == 0 {
        assert(w.record.methods + methods_of(methods) =~= w.record.methods);
    } else {
        let front = methods.drop_last();
        assert(sound_methods(front)) by {
            assert forall|i: int| 0 <= i < front.len() implies (#[trigger] front[i]).wf() by {
                assert(front[i] == methods[i]);
            }
        }
        assert(methods[methods.len() - 1] == methods.last());
        lemma_past_methods(w, front);
        lemma_past_method(past_methods(w, front), methods.last());
        assert(past_methods(w, front).record.methods.push(methods.last().view()) =~= w.record.methods
            + methods_of(methods));
    }
}

pub(crate) proof fn lemma_methods(w: WalkerView, methods: Seq<MethodModel>)
    requires
        all_bound(w.api),
        w.at.mode == Mode::Classes,
        sound_methods(methods),
    ensures
        replayed(w.next_method(), methods_answers(methods)) == past_methods(
            w,
            methods,
        ).next_method(),
    decreases methods.len(),
{
    if methods.len() > 0 {
        let front = methods.drop_last();
        assert(sound_methods(front)) by {
            assert forall|i: int| 0 <= i < front.len() implies (#[trigger] front[i]).wf() by {
                assert(front[i] == methods[i]);
            }
        }
        assert(methods[methods.len() - 1] == methods.last());
        lemma_methods(w, front);
        lemma_past_methods(w, front);
        lemma_replayed_concat(
            w.next_method(),
            methods_answers(front),
            method_answers(methods.last()),
        );
        let before = past_methods(w, front);
        assert(without_members(before).api == without_members(w).api);
        assert(without_members(before).at.mode == without_members(w).at.mode);
        assert(before.api.functions.entry(Entry::ClassGetMethods) is Some);
        let waiting = before.next_method();
        assert(waiting.0 == before.at_phase(Phase::Method));
        lemma_method(waiting.0, methods.last());
        lemma_replayed_start(waiting, (waiting.0, Step::Finished), method_answers(methods.last()));
        lemma_past_method(before, methods.last());
    }
}

/// What the runtime answers while one field is gathered: the field, its
/// attribute bits, its type, its offset, the name of the type and its own
/// name.
pub open spec fn field_answers(f: FieldModel) -> Seq<ResponseView> {
    seq![
        ResponseView::Cursor { item: f.handle, cursor: f.cursor },
        ResponseView::Signed(f.flags),
        ResponseView::Word(f.field_type.handle),
        ResponseView::Word(f.offset),
        ResponseView::Text(Some(f.field_type.name)),
        ResponseView::Text(Some(f.name)),
    ]
}

pub open spec fn fields_answers(fields: Seq<FieldModel>) -> Seq<ResponseView>
    decreases fields.len(),
{
    if fields.len() == 0 {
        Seq::empty()
    } else {
        fields_answers(fields.drop_last()) + field_answers(fields.last())
    }
}

/// The walk behind one field.
pub open spec fn past_field(w: WalkerView, f: FieldModel) -> WalkerView {
    WalkerView {
        at: Position {
            field: FieldInfo { address: f.handle },
            cursor: f.cursor,
            field_flags: f.flags,
            item_type: Il2CppType { address: f.field_type.handle },
            field_offset: f.offset,
            phase: Phase::FieldName,
            ..w.at
        },
        record: ClassView { fields: w.record.fields.push(f.view()), ..w.record },
        field_type: Seq::empty(),
        ..w
    }
}

/// The walk behind a list of fields.
pub open spec fn past_fields(w: WalkerView, fields: Seq<FieldModel>) -> WalkerView
    decreases fields.len(),
{
    if fields.len() == 0 {
        w
    } else {
        past_field(past_fields(w, fields.drop_last()), fields.last())
    }
}

pub(crate) proof fn lemma_field(w: WalkerView, f: FieldModel)
    requires
        all_bound(w.api),
        w.at.phase == Phase::Field,
        f.wf(),
    ensures
        replayed((w, Step::Finished), field_answers(f)) == past_field(w, f).next_field(),
{
    let start = (w, Step::Finished);
    let none = Seq::<ResponseView>::empty();
    let a = ResponseView::Cursor { item: f.handle, cursor: f.cursor };
    let b = ResponseView::Signed(f.flags);
    let c = ResponseView::Word(f.field_type.handle);
    let d = ResponseView::Word(f.offset);
    let e = ResponseView::Text(Some(f.field_type.name));
    let g = ResponseView::Text(Some(f.name));
    assert(field_answers(f) =~= none.push(a).push(b).push(c).push(d).push(e).push(g));
    lemma_replayed_push(start, none, a);
    lemma_replayed_push(start, none.push(a), b);
    lemma_replayed_push(start, none.push(a).push(b), c);
    lemma_replayed_push(start, none.push(a).push(b).push(c), d);
    lemma_replayed_push(start, none.push(a).push(b).push(c).push(d), e);
    lemma_replayed_push(start, none.push(a).push(b).push(c).push(d).push(e), g);
    assert(w.api.functions.entry(Entry::ClassGetFields) is Some);
    assert(w.api.functions.entry(Entry::FieldGetFlags) is Some);
    assert(w.api.functions.entry(Entry::FieldGetType) is Some);
    assert(w.api.functions.entry(Entry::FieldGetOffset) is Some);
    assert(w.api.functions.entry(Entry::TypeGetName) is Some);
    assert(w.api.functions.entry(Entry::FieldGetName) is Some);
    let s1 = w.next(a);
    let w1 = WalkerView {
        at: Position { field: FieldInfo { address: f.handle }, cursor: f.cursor, ..w.at },
        ..w
    };
    assert(s1 == w1.asked(Phase::FieldFlags, Entry::FieldGetFlags, f.handle, 0)) by {
        reveal(WalkerView::on_field);
    }
    let s2 = s1.0.next(b);
    let w2 = WalkerView { at: Position { field_flags: f.flags, ..s1.0.at }, ..s1.0 };
    assert(s2 == w2.asked(Phase::FieldType, Entry::FieldGetType, f.handle, 0)) by {
        reveal(WalkerView::on_field_flags);
    }
    let s3 = s2.0.next(c);
    let w3 = WalkerView {
        at: Position { item_type: Il2CppType { address: f.field_type.handle }, ..s2.0.at },
        ..s2.0
    };
    assert(s3 == w3.asked(Phase::FieldOffset, Entry::FieldGetOffset, f.handle, 0)) by {
        reveal(WalkerView::on_field_type);
    }
    let s4 = s3.0.next(d);
    let w4 = WalkerView { at: Position { field_offset: f.offset, ..s3.0.at }, ..s3.0 };
    assert(s4 == w4.asked(Phase::FieldTypeName, Entry::TypeGetName, f.field_type.handle, 0))
        by {
        reveal(WalkerView::on_field_offset);
    }
    let s5 = s4.0.next(e);
    let w5 = WalkerView { field_type: f.field_type.text(), ..s4.0 };
    assert(s5 == w5.asked(Phase::FieldName, Entry::FieldGetName, f.handle, 0)) by {
        reveal(WalkerView::on_field_type_name);
    }
    let s6 = s5.0.next(g);
    assert(s6 == past_field(w, f).next_field()) by {
        reveal(WalkerView::on_field_name);
    }
}

pub(crate) proof fn lemma_past_fields(w: WalkerView, fields: Seq<FieldModel>)
    requires
        w.field_type == Seq::<char>::empty(),
    ensures
        without_members(past_fields(w, fields)) == without_members(w),
        past_fields(w, fields).record.methods == w.record.methods,
        past_fields(w, fields).record.fields == w.record.fields + fields_of(fields),
        past_fields(w, fields).return_type == w.return_type,
        past_fields(w, fields).method_name == w.method_name,
        past_fields(w, fields).params == w.params,
        past_fields(w, fields).field_type == Seq::<char>::empty(),
    decreases fields.len(),
{
    if fields.len() == 0 {
        assert(w.record.fields + fields_of(fields) =~= w.record.fields);
    } else {
        let front = fields.drop_last();
        lemma_past_fields(w, front);
        assert(past_fields(w, front).record.fields.push(fields.last().view()) =~= w.record.fields
            + fields_of(fields));
        assert(without_members(past_fields(w, fields)).at == without_members(
            past_fields(w, front),
        ).at);
    }
}

pub(crate) proof fn lemma_fields(w: WalkerView, fields: Seq<FieldModel>)
    requires
        all_bound(w.api),
        w.field_type == Seq::<char>::empty(),
        sound_fields(fields),
    ensures
        replayed(w.next_field(), fields_answers(fields)) == past_fields(w, fields).next_field(),
    decreases fields.len(),
{
    if fields.len() > 0 {
        let front = fields.drop_last();
        assert(sound_fields(front)) by {
            assert forall|i: int| 0 <= i < front.len() implies (#[trigger] front[i]).wf() by {
                assert(front[i] == fields[i]);
            }
        }
        assert(fields[fields.len() - 1] == fields.last());
        lemma_fields(w, front);
        lemma_past_fields(w, front);
        lemma_replayed_concat(w.next_field(), fields_answers(front), field_answers(fields.last()));
        let before = past_fields(w, front);
        assert(without_members(before).api == without_members(w).api);
        assert(before.api.functions.entry(Entry::ClassGetFields) is Some);
        let waiting = before.next_field();
        assert(waiting.0 == before.at_phase(Phase::Field));
        lemma_field(waiting.0, fields.last());
        lemma_replayed_start(waiting, (waiting.0, Step::Finished), field_answers(fields.last()));
        assert(past_field(waiting.0, fields.last()) == past_field(before, fields.last()));
    }
}

} // verus!
