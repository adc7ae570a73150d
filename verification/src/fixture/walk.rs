//! The walk as a whole over a fixture: for each of the three things a
//! walk can gather, the answers of the runtime and the proof that the walk
//! ends with exactly what the emitters make of the runtime's metadata.

use crate::fixture::classes::{
    classes_answers, lemma_classes, lemma_past_classes, past_classes, without_class,
};
use crate::fixture::model::{
    all_classes_of, classes_of, images_of, sound_images, ImageModel, RuntimeModel,
};
use crate::fixture::offsets::{
    counted_in_classes, filed_classes_answers, lemma_counted_in_classes_inside,
    lemma_filed_classes, lemma_past_filed_classes,
    past_filed_classes, without_filed_class,
};
use crate::fixture::replay::{
    all_bound, begun, lemma_replayed_concat, lemma_replayed_push, lemma_replayed_start,
};
use crate::il2cpp::api::{Assemblies, Il2CppApi};
use crate::il2cpp::functions::Entry;
use crate::il2cpp::module::Module;
use crate::il2cpp::types::{Il2CppImage, MethodLayout};
use crate::metadata::ImageView;
use crate::dumper::DumperView;
use crate::outputs::csdumper::{
    classes_text, dump_text, image_text, images_text, lemma_classes_text_concat,
};
use crate::outputs::json::pretty_json;
use crate::outputs::methoddumper::{
    lemma_recorded_all_sound, lemma_recorded_onto_concat, lemma_recorded_onto_empty, offset_members,
    offsets_below, recorded_all, recorded_onto, summary_text, unique_keys,
};
use crate::protocol::{DumpError, RequestView, ResponseView, Step};
use crate::walker::{replayed, Mode, Phase, Position, WalkerView};
use vstd::prelude::*;
use vstd::utf8::decode_utf8;

verus! {

/// What the runtime answers while one slot of the assembly list is
/// walked: a null for an empty slot, otherwise the assembly, its image
/// and what the walk gathers of the image.
pub open spec fn slot_answers(mode: Mode, slot: Option<ImageModel>, module: Module) -> Seq<
    ResponseView,
> {
    match slot {
        None => seq![ResponseView::Word(0)],
        Some(image) => seq![
            ResponseView::Word(image.assembly),
            ResponseView::Word(image.handle),
        ] + match mode {
            Mode::Images => seq![ResponseView::Text(Some(image.name))],
            Mode::Classes => seq![ResponseView::Word(image.classes.len() as usize)]
                + classes_answers(image.classes),
            Mode::Offsets => seq![ResponseView::Word(image.classes.len() as usize)]
                + filed_classes_answers(image.classes, module),
        },
    }
}

pub open spec fn slots_answers(mode: Mode, slots: Seq<Option<ImageModel>>, module: Module) -> Seq<
    ResponseView,
>
    decreases slots.len(),
{
    if slots.len() == 0 {
        Seq::empty()
    } else {
        slots_answers(mode, slots.drop_last(), module) + slot_answers(mode, slots.last(), module)
    }
}

/// The methods that count in the slots of the assembly list, image after
/// image.
pub open spec fn counted_in_images(slots: Seq<Option<ImageModel>>, module: Module) -> Seq<
    (Seq<char>, u64),
>
    decreases slots.len(),
{
    if slots.len() == 0 {
        Seq::empty()
    } else {
        match slots.last() {
            None => counted_in_images(slots.drop_last(), module),
            Some(image) => counted_in_images(slots.drop_last(), module) + counted_in_classes(
                image.classes,
                module,
            ),
        }
    }
}

/// The walk that has entered an image and knows the number of its
/// classes.
pub open spec fn entered(w: WalkerView, image: ImageModel) -> WalkerView {
    WalkerView {
        at: Position {
            image: Il2CppImage { address: image.handle },
            class_count: image.classes.len() as usize,
            class_index: 0,
            phase: Phase::Class,
            ..w.at
        },
        ..w
    }
}

/// The walk that leaves an assembly.
pub open spec fn left(w: WalkerView) -> WalkerView {
    WalkerView {
        at: Position {
            assembly_index: (w.at.assembly_index + 1) as usize,
            phase: Phase::Assembly,
            ..w.at
        },
        ..w
    }
}

/// The walk behind one slot of the assembly list.
#[verifier::opaque]
pub open spec fn past_slot(w: WalkerView, slot: Option<ImageModel>) -> WalkerView {
    match slot {
        None => left(w),
        Some(image) => match w.at.mode {
            Mode::Images => left(
                WalkerView {
                    at: Position { image: Il2CppImage { address: image.handle }, ..w.at },
                    text: w.text + image_text(
                        ImageView { index: w.at.assembly_index, name: decode_utf8(image.name) },
                    ),
                    ..w
                },
            ),
            Mode::Classes => left(past_classes(entered(w, image), image.classes)),
            Mode::Offsets => left(past_filed_classes(entered(w, image), image.classes)),
        },
    }
}

pub open spec fn past_slots(w: WalkerView, slots: Seq<Option<ImageModel>>) -> WalkerView
    decreases slots.len(),
{
    if slots.len() == 0 {
        w
    } else {
        past_slot(past_slots(w, slots.drop_last()), slots.last())
    }
}

/// What a slot adds to the text of the walk.
pub open spec fn slot_text(w: WalkerView, slot: Option<ImageModel>) -> Seq<char> {
    match slot {
        None => Seq::empty(),
        Some(image) => match w.at.mode {
            Mode::Images => image_text(
                ImageView { index: w.at.assembly_index, name: decode_utf8(image.name) },
            ),
            Mode::Classes => classes_text(classes_of(image.classes), w.api.game_assembly.handle),
            Mode::Offsets => Seq::empty(),
        },
    }
}

/// The methods that a slot adds to the offsets of the walk.
pub open spec fn slot_methods(w: WalkerView, slot: Option<ImageModel>) -> Seq<(Seq<char>, u64)> {
    match slot {
        None => Seq::empty(),
        Some(image) => match w.at.mode {
            Mode::Offsets => counted_in_classes(image.classes, w.api.game_assembly),
            _ => Seq::empty(),
        },
    }
}

pub(crate) proof fn lemma_past_slot(w: WalkerView, slot: Option<ImageModel>)
    requires
        w.field_type == Seq::<char>::empty(),
        w.at.assembly_index < usize::MAX,
        slot matches Some(image) ==> image.wf(),
    ensures
        past_slot(w, slot).api == w.api,
        past_slot(w, slot).layout == w.layout,
        past_slot(w, slot).at.mode == w.at.mode,
        past_slot(w, slot).at.assemblies == w.at.assemblies,
        past_slot(w, slot).at.assembly_index == w.at.assembly_index + 1,
        past_slot(w, slot).field_type == Seq::<char>::empty(),
        past_slot(w, slot).text == w.text + slot_text(w, slot),
        past_slot(w, slot).offsets == recorded_onto(w.offsets, slot_methods(w, slot)),
        past_slot(w, slot) == past_slot(w.at_phase(Phase::Assembly), slot),
{
    reveal(past_slot);
    match slot {
        None => {
            assert(w.text + Seq::<char>::empty() =~= w.text);
        },
        Some(image) => {
            let e = entered(w, image);
            assert(entered(w.at_phase(Phase::Assembly), image) == e);
            match w.at.mode {
                Mode::Images => {},
                Mode::Classes => {
                    lemma_past_classes(e, image.classes);
                    let g = past_classes(e, image.classes);
                    assert(without_class(g) == without_class(e));
                    assert(g.api == without_class(g).api);
                    assert(g.layout == without_class(g).layout);
                    assert(g.offsets == without_class(g).offsets);
                    assert(g.at.mode == without_class(g).at.mode);
                    assert(g.at.assemblies == without_class(g).at.assemblies);
                    assert(g.at.assembly_index == without_class(g).at.assembly_index);
                    assert(e.api == without_class(e).api);
                    assert(e.offsets == without_class(e).offsets);
                },
                Mode::Offsets => {
                    lemma_past_filed_classes(e, image.classes);
                    let g = past_filed_classes(e, image.classes);
                    assert(without_filed_class(g) == without_filed_class(e));
                    assert(g.api == without_filed_class(g).api);
                    assert(g.layout == without_filed_class(g).layout);
                    assert(g.text == without_filed_class(g).text);
                    assert(g.field_type == without_filed_class(g).field_type);
                    assert(g.at.mode == without_filed_class(g).at.mode);
                    assert(g.at.assemblies == without_filed_class(g).at.assemblies);
                    assert(g.at.assembly_index == without_filed_class(g).at.assembly_index);
                    assert(e.api == without_filed_class(e).api);
                    assert(w.text + Seq::<char>::empty() =~= w.text);
                },
            }
        },
    }
}

proof fn lemma_slot_empty(w: WalkerView)
    requires
        all_bound(w.api),
        w.at.phase == Phase::Assembly,
    ensures
        replayed((w, Step::Finished), slot_answers(w.at.mode, None, w.api.game_assembly))
            == past_slot(w, None).next_assembly(),
{
    reveal(past_slot);
    let none = Seq::<ResponseView>::empty();
    assert(slot_answers(w.at.mode, None, w.api.game_assembly) =~= none.push(
        ResponseView::Word(0),
    ));
    lemma_replayed_push((w, Step::Finished), none, ResponseView::Word(0));
    reveal(WalkerView::on_assembly);
}

/// The walk that has asked for what it gathers of an image.
pub open spec fn imaged(w: WalkerView, image: ImageModel) -> (WalkerView, Step) {
    let next = WalkerView {
        at: Position {
            image: Il2CppImage { address: image.handle },
            phase: Phase::Image,
            ..w.at
        },
        ..w
    };
    if w.at.mode == Mode::Images {
        next.asked(Phase::ImageName, Entry::ImageGetName, image.handle, 0)
    } else {
        next.asked(Phase::ClassCount, Entry::ImageGetClassCount, image.handle, 0)
    }
}

proof fn lemma_slot_head(w: WalkerView, image: ImageModel)
    requires
        all_bound(w.api),
        w.at.phase == Phase::Assembly,
        image.wf(),
    ensures
        replayed(
            (w, Step::Finished),
            seq![ResponseView::Word(image.assembly), ResponseView::Word(image.handle)],
        ) == imaged(w, image),
{
    let start = (w, Step::Finished);
    let none = Seq::<ResponseView>::empty();
    let a = ResponseView::Word(image.assembly);
    let b = ResponseView::Word(image.handle);
    assert(w.api.functions.entry(Entry::AssemblyGetImage) is Some);
    assert(w.api.functions.entry(Entry::ImageGetName) is Some);
    assert(w.api.functions.entry(Entry::ImageGetClassCount) is Some);
    assert(seq![a, b] =~= none.push(a).push(b));
    lemma_replayed_push(start, none, a);
    lemma_replayed_push(start, none.push(a), b);
    let s1 = w.next(a);
    assert(s1 == w.asked(Phase::Image, Entry::AssemblyGetImage, image.assembly, 0)) by {
        reveal(WalkerView::on_assembly);
    }
    assert(s1.0.next(b) == imaged(w, image)) by {
        reveal(WalkerView::on_image);
    }
}

proof fn lemma_slot_images(w: WalkerView, image: ImageModel)
    requires
        all_bound(w.api),
        w.at.mode == Mode::Images,
        w.at.phase == Phase::Assembly,
        image.wf(),
    ensures
        replayed((w, Step::Finished), slot_answers(w.at.mode, Some(image), w.api.game_assembly))
            == past_slot(w, Some(image)).next_assembly(),
{
    reveal(past_slot);
    let start = (w, Step::Finished);
    let head = seq![ResponseView::Word(image.assembly), ResponseView::Word(image.handle)];
    let c = ResponseView::Text(Some(image.name));
    lemma_slot_head(w, image);
    assert(w.api.functions.entry(Entry::ImageGetName) is Some);
    assert(slot_answers(w.at.mode, Some(image), w.api.game_assembly) =~= head.push(c));
    lemma_replayed_push(start, head, c);
    assert(imaged(w, image).0.next(c) == past_slot(w, Some(image)).next_assembly()) by {
        reveal(WalkerView::on_image_name);
    }
}

proof fn lemma_slot_count(w: WalkerView, image: ImageModel)
    requires
        all_bound(w.api),
        w.at.mode != Mode::Images,
        w.at.phase == Phase::Assembly,
        image.wf(),
    ensures
        replayed(
            (w, Step::Finished),
            seq![
                ResponseView::Word(image.assembly),
                ResponseView::Word(image.handle),
                ResponseView::Word(image.classes.len() as usize),
            ],
        ) == entered(w, image).next_class(),
{
    let start = (w, Step::Finished);
    let head = seq![ResponseView::Word(image.assembly), ResponseView::Word(image.handle)];
    let c = ResponseView::Word(image.classes.len() as usize);
    lemma_slot_head(w, image);
    assert(w.api.functions.entry(Entry::ImageGetClassCount) is Some);
    assert(seq![
        ResponseView::Word(image.assembly),
        ResponseView::Word(image.handle),
        ResponseView::Word(image.classes.len() as usize),
    ] =~= head.push(c));
    lemma_replayed_push(start, head, c);
    assert(imaged(w, image).0.next(c) == entered(w, image).next_class()) by {
        reveal(WalkerView::on_class_count);
    }
}

proof fn lemma_slot_classes(w: WalkerView, image: ImageModel)
    requires
        all_bound(w.api),
        w.at.mode == Mode::Classes,
        w.at.phase == Phase::Assembly,
        w.field_type == Seq::<char>::empty(),
        image.wf(),
    ensures
        replayed((w, Step::Finished), slot_answers(w.at.mode, Some(image), w.api.game_assembly))
            == past_slot(w, Some(image)).next_assembly(),
{
    reveal(past_slot);
    let start = (w, Step::Finished);
    let head = seq![
        ResponseView::Word(image.assembly),
        ResponseView::Word(image.handle),
        ResponseView::Word(image.classes.len() as usize),
    ];
    lemma_slot_count(w, image);
    let e = entered(w, image);
    assert(slot_answers(w.at.mode, Some(image), w.api.game_assembly) =~= head + classes_answers(
        image.classes,
    ));
    lemma_replayed_concat(start, head, classes_answers(image.classes));
    lemma_classes(e, image.classes);
    lemma_past_classes(e, image.classes);
    let g = past_classes(e, image.classes);
    assert(g.at.class_count == without_class(g).at.class_count);
    assert(e.at.class_count == without_class(e).at.class_count);
    assert(g.next_class() == g.after_assembly());
}

proof fn lemma_slot_offsets(w: WalkerView, image: ImageModel)
    requires
        all_bound(w.api),
        w.at.mode == Mode::Offsets,
        w.at.phase == Phase::Assembly,
        image.wf(),
    ensures
        replayed((w, Step::Finished), slot_answers(w.at.mode, Some(image), w.api.game_assembly))
            == past_slot(w, Some(image)).next_assembly(),
{
    reveal(past_slot);
    let start = (w, Step::Finished);
    let module = w.api.game_assembly;
    let head = seq![
        ResponseView::Word(image.assembly),
        ResponseView::Word(image.handle),
        ResponseView::Word(image.classes.len() as usize),
    ];
    lemma_slot_count(w, image);
    let e = entered(w, image);
    assert(slot_answers(w.at.mode, Some(image), module) =~= head + filed_classes_answers(
        image.classes,
        module,
    ));
    lemma_replayed_concat(start, head, filed_classes_answers(image.classes, module));
    lemma_filed_classes(e, image.classes);
    lemma_past_filed_classes(e, image.classes);
    let g = past_filed_classes(e, image.classes);
    assert(g.at.class_count == without_filed_class(g).at.class_count);
    assert(e.at.class_count == without_filed_class(e).at.class_count);
    assert(g.next_class() == g.after_assembly());
}

pub(crate) proof fn lemma_slot(w: WalkerView, slot: Option<ImageModel>)
    requires
        all_bound(w.api),
        w.at.phase == Phase::Assembly,
        w.field_type == Seq::<char>::empty(),
        slot matches Some(image) ==> image.wf(),
    ensures
        replayed((w, Step::Finished), slot_answers(w.at.mode, slot, w.api.game_assembly))
            == past_slot(w, slot).next_assembly(),
{
    match slot {
        None => {
            lemma_slot_empty(w);
        },
        Some(image) => {
            match w.at.mode {
                Mode::Images => {
                    lemma_slot_images(w, image);
                },
                Mode::Classes => {
                    lemma_slot_classes(w, image);
                },
                Mode::Offsets => {
                    lemma_slot_offsets(w, image);
                },
            }
        },
    }
}

/// What a list of slots adds to the text of a walk that begins at the
/// first slot.
pub open spec fn slots_text(mode: Mode, slots: Seq<Option<ImageModel>>, base: usize) -> Seq<char> {
    match mode {
        Mode::Images => images_text(images_of(slots)),
        Mode::Classes => classes_text(all_classes_of(slots), base),
        Mode::Offsets => Seq::empty(),
    }
}

/// The methods that a list of slots adds to the offsets of a walk.
pub open spec fn slots_methods(mode: Mode, slots: Seq<Option<ImageModel>>, module: Module) -> Seq<
    (Seq<char>, u64),
> {
    match mode {
        Mode::Offsets => counted_in_images(slots, module),
        _ => Seq::empty(),
    }
}

pub(crate) proof fn lemma_past_slots(w: WalkerView, slots: Seq<Option<ImageModel>>)
    requires
        w.field_type == Seq::<char>::empty(),
        w.at.assembly_index == 0,
        slots.len() <= usize::MAX,
        sound_images(slots),
    ensures
        past_slots(w, slots).api == w.api,
        past_slots(w, slots).layout == w.layout,
        past_slots(w, slots).at.mode == w.at.mode,
        past_slots(w, slots).at.assemblies == w.at.assemblies,
        past_slots(w, slots).at.assembly_index == slots.len(),
        past_slots(w, slots).field_type == Seq::<char>::empty(),
        past_slots(w, slots).text == w.text + slots_text(
            w.at.mode,
            slots,
            w.api.game_assembly.handle,
        ),
        past_slots(w, slots).offsets == recorded_onto(
            w.offsets,
            slots_methods(w.at.mode, slots, w.api.game_assembly),
        ),
    decreases slots.len(),
{
    let base = w.api.game_assembly.handle;
    let module = w.api.game_assembly;
    if slots.len() == 0 {
        assert(w.text + slots_text(w.at.mode, slots, base) =~= w.text);
    } else {
        let front = slots.drop_last();
        assert(sound_images(front)) by {
            assert forall|i: int| 0 <= i < front.len() implies ((#[trigger] front[i]) matches Some(
                image,
            ) ==> image.wf()) by {
                assert(front[i] == slots[i]);
            }
        }
        assert(slots[slots.len() - 1] == slots.last());
        lemma_past_slots(w, front);
        let before = past_slots(w, front);
        lemma_past_slot(before, slots.last());
        match slots.last() {
            None => {
                assert(before.text + Seq::<char>::empty() =~= before.text);
            },
            Some(image) => {
                match w.at.mode {
                    Mode::Images => {
                        let line = ImageView {
                            index: (slots.len() - 1) as usize,
                            name: decode_utf8(image.name),
                        };
                        let images = images_of(front);
                        assert(images.push(line).drop_last() =~= images);
                        assert(before.text + image_text(line) =~= w.text + images_text(
                            images.push(line),
                        ));
                    },
                    Mode::Classes => {
                        lemma_classes_text_concat(
                            all_classes_of(front),
                            classes_of(image.classes),
                            base,
                        );
                        assert(before.text + classes_text(classes_of(image.classes), base)
                            =~= w.text + classes_text(all_classes_of(slots), base));
                    },
                    Mode::Offsets => {
                        lemma_recorded_onto_concat(
                            w.offsets,
                            counted_in_images(front, module),
                            counted_in_classes(image.classes, module),
                        );
                        assert(before.text + Seq::<char>::empty() =~= before.text);
                    },
                }
            },
        }
    }
}

pub(crate) proof fn lemma_slots(w: WalkerView, slots: Seq<Option<ImageModel>>)
    requires
        all_bound(w.api),
        w.at.assembly_index == 0,
        slots.len() <= w.at.assemblies.count,
        w.field_type == Seq::<char>::empty(),
        sound_images(slots),
    ensures
        replayed(w.next_assembly(), slots_answers(w.at.mode, slots, w.api.game_assembly))
            == past_slots(w, slots).next_assembly(),
    decreases slots.len(),
{
    if slots.len() > 0 {
        let front = slots.drop_last();
        assert(sound_images(front)) by {
            assert forall|i: int| 0 <= i < front.len() implies ((#[trigger] front[i]) matches Some(
                image,
            ) ==> image.wf()) by {
                assert(front[i] == slots[i]);
            }
        }
        assert(slots[slots.len() - 1] == slots.last());
        lemma_slots(w, front);
        lemma_past_slots(w, front);
        let module = w.api.game_assembly;
        lemma_replayed_concat(
            w.next_assembly(),
            slots_answers(w.at.mode, front, module),
            slot_answers(w.at.mode, slots.last(), module),
        );
        let before = past_slots(w, front);
        let waiting = before.next_assembly();
        assert(waiting.0 == before.at_phase(Phase::Assembly));
        lemma_slot(waiting.0, slots.last());
        assert(slot_answers(w.at.mode, slots.last(), module).len() > 0);
        lemma_replayed_start(
            waiting,
            (waiting.0, Step::Finished),
            slot_answers(w.at.mode, slots.last(), module),
        );
        lemma_past_slot(before, slots.last());
    }
}

impl RuntimeModel {
    /// The answers of the runtime to a walk, from the answer to the first
    /// question on.
    pub open spec fn answers(self, mode: Mode, module: Module) -> Seq<ResponseView> {
        seq![
            ResponseView::Word(self.domain),
            ResponseView::Counted { list: self.list, count: self.assemblies.len() as usize },
        ] + slots_answers(mode, self.assemblies, module)
    }
}

/// The walk that knows the assembly list and has looked at none of its
/// slots.
pub open spec fn listed(api: Il2CppApi, layout: MethodLayout, mode: Mode, model: RuntimeModel) -> WalkerView {
    let first = WalkerView::initial(api, layout, mode);
    WalkerView {
        at: Position {
            assemblies: Assemblies { list: model.list, count: model.assemblies.len() as usize },
            assembly_index: 0,
            phase: Phase::Assemblies,
            ..first.at
        },
        ..first
    }
}

/// A walk over a sound runtime with every entry point bound comes to its
/// end behind the last slot of the assembly list.
pub proof fn lemma_walk(api: Il2CppApi, layout: MethodLayout, mode: Mode, model: RuntimeModel)
    requires
        all_bound(api),
        model.wf(),
    ensures
        replayed(begun(api, layout, mode), model.answers(mode, api.game_assembly)) == (
            past_slots(listed(api, layout, mode, model), model.assemblies).at_phase(Phase::Done),
            Step::Finished,
        ),
{
    let start = begun(api, layout, mode);
    let none = Seq::<ResponseView>::empty();
    let a = ResponseView::Word(model.domain);
    let b = ResponseView::Counted { list: model.list, count: model.assemblies.len() as usize };
    let rest = slots_answers(mode, model.assemblies, api.game_assembly);
    assert(api.functions.entry(Entry::DomainGet) is Some);
    assert(api.functions.entry(Entry::DomainGetAssemblies) is Some);
    assert(seq![a, b] =~= none.push(a).push(b));
    lemma_replayed_push(start, none, a);
    lemma_replayed_push(start, none.push(a), b);
    lemma_replayed_concat(start, seq![a, b], rest);
    let s1 = start.0.next(a);
    assert(s1 == start.0.asked(Phase::Assemblies, Entry::DomainGetAssemblies, model.domain, 0))
        by {
        reveal(WalkerView::on_domain);
    }
    let w = listed(api, layout, mode, model);
    let s2 = s1.0.next(b);
    assert(s2 == w.next_assembly()) by {
        reveal(WalkerView::on_assemblies);
    }
    lemma_slots(w, model.assemblies);
    lemma_past_slots(w, model.assemblies);
}

/// The walk for the image header gathers the header that the emitter
/// writes for the images of the runtime.
pub proof fn lemma_walk_gathers_header(api: Il2CppApi, layout: MethodLayout, model: RuntimeModel)
    requires
        all_bound(api),
        model.wf(),
    ensures
        replayed(begun(api, layout, Mode::Images), model.answers(Mode::Images, api.game_assembly)).1
            == Step::Finished,
        replayed(begun(api, layout, Mode::Images), model.answers(Mode::Images, api.game_assembly)).0.text
            == images_text(images_of(model.assemblies)),
{
    lemma_walk(api, layout, Mode::Images, model);
    let w = listed(api, layout, Mode::Images, model);
    lemma_past_slots(w, model.assemblies);
    assert(w.text + images_text(images_of(model.assemblies)) =~= images_text(
        images_of(model.assemblies),
    ));
}

/// The walk for the class blocks gathers the blocks that the emitter
/// writes for the classes of the runtime, image after image and class
/// after class.
pub proof fn lemma_walk_gathers_classes(api: Il2CppApi, layout: MethodLayout, model: RuntimeModel)
    requires
        all_bound(api),
        model.wf(),
    ensures
        replayed(
            begun(api, layout, Mode::Classes),
            model.answers(Mode::Classes, api.game_assembly),
        ).1 == Step::Finished,
        replayed(
            begun(api, layout, Mode::Classes),
            model.answers(Mode::Classes, api.game_assembly),
        ).0.text == classes_text(all_classes_of(model.assemblies), api.game_assembly.handle),
{
    lemma_walk(api, layout, Mode::Classes, model);
    let w = listed(api, layout, Mode::Classes, model);
    lemma_past_slots(w, model.assemblies);
    let blocks = classes_text(all_classes_of(model.assemblies), api.game_assembly.handle);
    assert(w.text + blocks =~= blocks);
}

/// The walk for the offsets files exactly the methods of the runtime that
/// lie inside the game module, in the order of the walk.
pub proof fn lemma_walk_gathers_offsets(api: Il2CppApi, layout: MethodLayout, model: RuntimeModel)
    requires
        all_bound(api),
        model.wf(),
    ensures
        replayed(
            begun(api, layout, Mode::Offsets),
            model.answers(Mode::Offsets, api.game_assembly),
        ).1 == Step::Finished,
        replayed(
            begun(api, layout, Mode::Offsets),
            model.answers(Mode::Offsets, api.game_assembly),
        ).0.offsets == recorded_all(counted_in_images(model.assemblies, api.game_assembly)),
{
    lemma_walk(api, layout, Mode::Offsets, model);
    let w = listed(api, layout, Mode::Offsets, model);
    lemma_past_slots(w, model.assemblies);
    lemma_recorded_onto_empty(counted_in_images(model.assemblies, api.game_assembly));
}

/// What goes to the two files. Over a sound runtime with every entry
/// point bound, the run serializes the map of exactly the methods that lie
/// inside the game module, hands `methods.json` what the serializer made
/// of it and reports its number of keys, and hands `dump.cs` the
/// pseudo-source that the emitter writes for the images and classes of the
/// runtime.
pub proof fn lemma_files(run: DumperView, model: RuntimeModel)
    requires
        all_bound(run.il2cpp_api),
        model.wf(),
    ensures
        ({
            let api = run.il2cpp_api;
            let module = api.game_assembly;
            let offsets = replayed(
                begun(api, run.config.method, Mode::Offsets),
                model.answers(Mode::Offsets, module),
            ).0;
            let filed = recorded_all(counted_in_images(model.assemblies, module));
            let done = run.offsets_done(offsets, pretty_json(offset_members(offsets.offsets)));
            match pretty_json(offset_members(filed)) {
                Some(text) => {
                    &&& done.1 == (RequestView::Write { file: "methods.json"@, contents: text })
                    &&& done.0.summary == summary_text(offset_members(filed).len())
                },
                None => done == run.failed(DumpError::Serialize),
            }
        }),
        ({
            let api = run.il2cpp_api;
            let module = api.game_assembly;
            let images = replayed(
                begun(api, run.config.method, Mode::Images),
                model.answers(Mode::Images, module),
            ).0;
            let classes = replayed(
                begun(api, run.config.method, Mode::Classes),
                model.answers(Mode::Classes, module),
            ).0;
            DumperView { header: images.text, ..run }.classes_done(classes).1
                == (RequestView::Write {
                file: "dump.cs"@,
                contents: dump_text(
                    images_of(model.assemblies),
                    all_classes_of(model.assemblies),
                    module.handle,
                ),
            })
        }),
{
    let api = run.il2cpp_api;
    lemma_walk_gathers_offsets(api, run.config.method, model);
    lemma_walk_gathers_header(api, run.config.method, model);
    lemma_walk_gathers_classes(api, run.config.method, model);
}

proof fn lemma_counted_in_images_inside(slots: Seq<Option<ImageModel>>, module: Module)
    ensures
        forall|i: int|
            0 <= i < counted_in_images(slots, module).len() ==> (#[trigger] counted_in_images(
                slots,
                module,
            )[i]).1 < module.size,
    decreases slots.len(),
{
    if slots.len() > 0 {
        lemma_counted_in_images_inside(slots.drop_last(), module);
        let front = counted_in_images(slots.drop_last(), module);
        let all = counted_in_images(slots, module);
        match slots.last() {
            None => {},
            Some(image) => {
                lemma_counted_in_classes_inside(image.classes, module);
                let added = counted_in_classes(image.classes, module);
                assert forall|i: int| 0 <= i < all.len() implies (#[trigger] all[i]).1
                    < module.size by {
                    if i < front.len() {
                        assert(all[i] == front[i]);
                    } else {
                        assert(all[i] == added[i - front.len()]);
                    }
                }
            },
        }
    }
}

/// What the walk for the offsets ends with is sound: no key stands twice
/// and every offset lies inside the game module.
pub proof fn lemma_walk_files_inside_module(
    api: Il2CppApi,
    layout: MethodLayout,
    model: RuntimeModel,
)
    requires
        all_bound(api),
        model.wf(),
    ensures
        unique_keys(
            replayed(
                begun(api, layout, Mode::Offsets),
                model.answers(Mode::Offsets, api.game_assembly),
            ).0.offsets,
        ),
        offsets_below(
            replayed(
                begun(api, layout, Mode::Offsets),
                model.answers(Mode::Offsets, api.game_assembly),
            ).0.offsets,
            api.game_assembly.size,
        ),
{
    lemma_walk_gathers_offsets(api, layout, model);
    lemma_counted_in_images_inside(model.assemblies, api.game_assembly);
    lemma_recorded_all_sound(
        counted_in_images(model.assemblies, api.game_assembly),
        api.game_assembly.size,
    );
}

} // verus!
