//! The method-offset emitter: which methods count, under which key each
//! one is filed and at which offset.

use crate::il2cpp::module::Module;
use crate::outputs::json::{
    has_member, json_insert, json_members, json_object, json_pretty, pretty_json, rendered_text,
};
use crate::protocol::DumpError;
use crate::text::{dec_digits, hex_digits, push_dec, push_hex};
use vstd::prelude::*;
use vstd::string::*;

verus! {

/// One entry of the offset map as the contracts see it: the key, the
/// offset inside the image, and how often the key has been taken when a
/// method asked for it.
pub struct OffsetEntry {
    pub key: Seq<char>,
    pub rva: u64,
    pub collisions: u64,
}

/// Whether some entry is filed under `key`.
pub open spec fn has_key(entries: Seq<OffsetEntry>, key: Seq<char>) -> bool {
    exists|i: int| 0 <= i < entries.len() && #[trigger] entries[i].key == key
}

/// The place of the entry filed under `key`.
pub open spec fn position(entries: Seq<OffsetEntry>, key: Seq<char>) -> int {
    choose|i: int| 0 <= i < entries.len() && #[trigger] entries[i].key == key
}

/// No two entries share a key.
pub open spec fn unique_keys(entries: Seq<OffsetEntry>) -> bool {
    forall|i: int, j: int|
        0 <= i < j < entries.len() ==> #[trigger] entries[i].key != #[trigger] entries[j].key
}

/// Every offset lies inside an image of `size` bytes.
pub open spec fn offsets_below(entries: Seq<OffsetEntry>, size: usize) -> bool {
    forall|i: int| 0 <= i < entries.len() ==> (#[trigger] entries[i]).rva < size
}

/// Files `rva` under `key`: a new key goes to the end, a key already there
/// keeps its place and its counter and takes the new offset.
pub open spec fn upsert(entries: Seq<OffsetEntry>, key: Seq<char>, rva: u64) -> Seq<OffsetEntry> {
    if has_key(entries, key) {
        let i = position(entries, key);
        entries.update(i, OffsetEntry { key, rva, collisions: entries[i].collisions })
    } else {
        entries.push(OffsetEntry { key, rva, collisions: 0 })
    }
}

/// The next value of a collision counter; it stays at the largest value
/// once it has reached it.
pub open spec fn bump(count: u64) -> u64 {
    if count < u64::MAX {
        (count + 1) as u64
    } else {
        count
    }
}

/// The key of a repeated name: the name, an underscore and the number of
/// the collision in decimal.
pub open spec fn suffixed(name: Seq<char>, number: u64) -> Seq<char> {
    name + "_"@ + dec_digits(number as nat)
}

/// The key under which a method named `name` is filed: the bare name while
/// it is free, otherwise the name with the next collision number, which
/// starts at one.
pub open spec fn assigned_key(entries: Seq<OffsetEntry>, name: Seq<char>) -> Seq<char> {
    if has_key(entries, name) {
        suffixed(name, bump(entries[position(entries, name)].collisions))
    } else {
        name
    }
}

/// The map after a method named `name` at offset `rva` has been filed.
pub open spec fn recorded(entries: Seq<OffsetEntry>, name: Seq<char>, rva: u64) -> Seq<
    OffsetEntry,
> {
    if has_key(entries, name) {
        let i = position(entries, name);
        let number = bump(entries[i].collisions);
        upsert(
            entries.update(i, OffsetEntry { collisions: number, ..entries[i] }),
            suffixed(name, number),
            rva,
        )
    } else {
        entries.push(OffsetEntry { key: name, rva, collisions: 0 })
    }
}

/// The namespace as it stands before a class name: followed by a dot, or
/// nothing for the empty namespace.
pub open spec fn namespace_prefix(namespace: Seq<char>) -> Seq<char> {
    if namespace.len() == 0 {
        Seq::empty()
    } else {
        namespace + "."@
    }
}

/// The fully-qualified name of a method.
pub open spec fn qualified_name(namespace: Seq<char>, class: Seq<char>, method: Seq<char>) -> Seq<
    char,
> {
    namespace_prefix(namespace) + class + "::"@ + method
}

/// The line that reports how many methods were saved.
pub open spec fn summary_text(count: nat) -> Seq<char> {
    dec_digits(count) + " valid methods found and saved to methods.json"@
}

/// Whether a method's code pointer lies inside the game module, so that
/// the method counts.
pub fn verify_pointer(module: &Module, pointer: usize) -> (valid: bool)
    ensures
        valid == module.contains(pointer),
{
    module.holds(pointer)
}

/// Builds the fully-qualified name of a method from the namespace and name
/// of its class and its own name.
pub fn describe(namespace: &str, class_name: &str, method_name: &str) -> (name: String)
    ensures
        name@ == qualified_name(namespace@, class_name@, method_name@),
{
    let mut name = String::from_str(namespace);
    if !namespace.is_empty() {
        name.append(".");
    }
    name.append(class_name);
    name.append("::");
    name.append(method_name);
    assert(name@ =~= qualified_name(namespace@, class_name@, method_name@));
    name
}

/// The ordered map from unique keys to offsets inside the game module.
/// Entries stay in the order in which their keys first came.
pub struct MethodOffsets {
    pub module: Module,
    pub keys: Vec<String>,
    pub rvas: Vec<u64>,
    pub collisions: Vec<u64>,
}

impl View for MethodOffsets {
    type V = Seq<OffsetEntry>;

    open spec fn view(&self) -> Seq<OffsetEntry> {
        Seq::new(
            self.keys@.len(),
            |i: int|
                OffsetEntry {
                    key: self.keys@[i]@,
                    rva: self.rvas@[i],
                    collisions: self.collisions@[i],
                },
        )
    }
}

impl MethodOffsets {
    /// The three columns have one length, no key occurs twice and every
    /// offset lies inside the module.
    pub open spec fn wf(&self) -> bool {
        &&& self.keys@.len() == self.rvas@.len()
        &&& self.keys@.len() == self.collisions@.len()
        &&& unique_keys(self@)
        &&& offsets_below(self@, self.module.size)
    }

    /// An empty map for the methods of `module`.
    pub fn new(module: Module) -> (map: MethodOffsets)
        ensures
            map.wf(),
            map.module == module,
            map@ == Seq::<OffsetEntry>::empty(),
    {
        let map = MethodOffsets {
            module,
            keys: Vec::new(),
            rvas: Vec::new(),
            collisions: Vec::new(),
        };
        assert(map@ =~= Seq::<OffsetEntry>::empty());
        map
    }

    /// The number of keys.
    pub fn len(&self) -> (count: usize)
        requires
            self.wf(),
        ensures
            count == self@.len(),
    {
        self.keys.len()
    }

    /// The key of the entry at `index`.
    pub fn key(&self, index: usize) -> (key: &String)
        requires
            self.wf(),
            index < self@.len(),
        ensures
            key@ == self@[index as int].key,
    {
        &self.keys[index]
    }

    /// The offset of the entry at `index`, which lies inside the module.
    pub fn rva(&self, index: usize) -> (rva: u64)
        requires
            self.wf(),
            index < self@.len(),
        ensures
            rva == self@[index as int].rva,
            rva < self.module.size,
    {
        assert(self@[index as int].rva < self.module.size);
        self.rvas[index]
    }

    /// Looks for the entry filed under `key`.
    pub fn find(&self, key: &String) -> (place: Option<usize>)
        requires
            self.wf(),
        ensures
            match place {
                Some(i) => i < self@.len() && self@[i as int].key == key@ && i == position(
                    self@,
                    key@,
                ),
                None => !has_key(self@, key@),
            },
            place is Some <==> has_key(self@, key@),
    {
        let mut i: usize = 0;
        while i < self.keys.len()
            invariant
                i <= self.keys.len(),
                self.wf(),
                forall|k: int| 0 <= k < i ==> (#[trigger] self@[k]).key != key@,
            decreases self.keys.len() - i,
        {
            if self.keys[i] == *key {
                assert(self@[i as int].key == key@);
                return Some(i);
            }
            i = i + 1;
        }
        None
    }

    fn upsert(&mut self, key: String, rva: u64)
        requires
            old(self).wf(),
            rva < old(self).module.size,
        ensures
            final(self).wf(),
            final(self).module == old(self).module,
            final(self)@ == upsert(old(self)@, key@, rva),
    {
        match self.find(&key) {
            Some(i) => {
                self.rvas.set(i, rva);
                assert(self@ =~= upsert(old(self)@, key@, rva));
            },
            None => {
                self.keys.push(key);
                self.rvas.push(rva);
                self.collisions.push(0);
                assert(self@ =~= upsert(old(self)@, key@, rva));
            },
        }
    }

    /// Files one method. A method whose code pointer lies outside the
    /// module is dropped and the map stays as it is. Any other method is
    /// filed at its offset from the module's first byte, under its name
    /// while that is free and under a numbered name otherwise.
    pub fn record(&mut self, name: String, pointer: usize) -> (emitted: bool)
        requires
            old(self).wf(),
        ensures
            final(self).wf(),
            final(self).module == old(self).module,
            emitted == old(self).module.contains(pointer),
            emitted ==> final(self)@ == recorded(
                old(self)@,
                name@,
                (pointer - old(self).module.handle) as u64,
            ),
            !emitted ==> final(self)@ == old(self)@,
    {
        if !verify_pointer(&self.module, pointer) {
            return false;
        }
        let rva: u64 = (pointer - self.module.handle) as u64;
        match self.find(&name) {
            None => {
                self.keys.push(name);
                self.rvas.push(rva);
                self.collisions.push(0);
                assert(self@ =~= recorded(old(self)@, name@, rva));
            },
            Some(i) => {
                let count: u64 = self.collisions[i];
                let number: u64 = if count < u64::MAX {
                    count + 1
                } else {
                    count
                };
                self.collisions.set(i, number);
                assert(self@ =~= old(self)@.update(
                    i as int,
                    OffsetEntry { collisions: number, ..old(self)@[i as int] },
                ));
                let mut key = name;
                key.append("_");
                push_dec(&mut key, number);
                assert(key@ =~= suffixed(name@, number));
                self.upsert(key, rva);
            },
        }
        true
    }

    /// The line that reports how many methods were saved.
    pub fn summary(&self) -> (line: String)
        requires
            self.wf(),
        ensures
            line@ == summary_text(self@.len()),
    {
        let mut line = String::new();
        push_dec(&mut line, self.keys.len() as u64);
        line.append(" valid methods found and saved to methods.json");
        assert(line@ =~= summary_text(self@.len()));
        line
    }
}

/// The collision counter of the entry filed under `key`.
pub open spec fn collisions_of(entries: Seq<OffsetEntry>, key: Seq<char>) -> u64 {
    entries[position(entries, key)].collisions
}

/// In a map without repeated keys, the place of an entry's key is the
/// entry's own place.
pub proof fn lemma_position(entries: Seq<OffsetEntry>, i: int)
    requires
        unique_keys(entries),
        0 <= i < entries.len(),
    ensures
        has_key(entries, entries[i].key),
        position(entries, entries[i].key) == i,
{
    let key = entries[i].key;
    assert(entries[i].key == key);
    let j = position(entries, key);
    assert(0 <= j < entries.len() && entries[j].key == key);
    if j < i {
        assert(entries[j].key != entries[i].key);
    } else if i < j {
        assert(entries[i].key != entries[j].key);
    }
}

/// A numbered key is never the bare name.
pub proof fn lemma_suffixed_differs(name: Seq<char>, number: u64)
    ensures
        suffixed(name, number) != name,
{
    reveal_strlit("_");
    assert(suffixed(name, number).len() > name.len());
}

/// Filing an offset under a key keeps the map sound, keeps every key that
/// was there and leaves every collision counter as it was.
pub proof fn lemma_upsert(entries: Seq<OffsetEntry>, key: Seq<char>, rva: u64, k: Seq<char>)
    requires
        unique_keys(entries),
    ensures
        unique_keys(upsert(entries, key, rva)),
        has_key(upsert(entries, key, rva), key),
        forall|size: usize|
            offsets_below(entries, size) && rva < size ==> #[trigger] offsets_below(
                upsert(entries, key, rva),
                size,
            ),
        has_key(entries, k) ==> has_key(upsert(entries, key, rva), k) && collisions_of(
            upsert(entries, key, rva),
            k,
        ) == collisions_of(entries, k),
        !has_key(entries, key) ==> collisions_of(upsert(entries, key, rva), key) == 0,
        !has_key(entries, k) && k != key ==> !has_key(upsert(entries, key, rva), k),
{
    let after = upsert(entries, key, rva);
    if has_key(entries, key) {
        let i = position(entries, key);
        assert(forall|j: int| 0 <= j < after.len() ==> (#[trigger] after[j]).key == entries[j].key);
        assert(after[i].key == key);
        if has_key(entries, k) {
            let j = position(entries, k);
            assert(after[j].key == k);
            lemma_position(after, j);
        }
        if has_key(after, k) {
            let j = position(after, k);
            assert(entries[j].key == k);
        }
    } else {
        let last = entries.len() as int;
        assert(after[last].key == key);
        assert forall|a: int, b: int| 0 <= a < b < after.len() implies #[trigger] after[a].key
            != #[trigger] after[b].key by {
            if b == last {
                assert(entries[a].key == after[a].key);
            }
        }
        lemma_position(after, last);
        if has_key(entries, k) {
            let j = position(entries, k);
            assert(after[j].key == k);
            lemma_position(after, j);
        }
        if has_key(after, k) && k != key {
            let j = position(after, k);
            assert(entries[j].key == k);
        }
    }
}

/// Filing a method keeps the map sound: no key comes to stand twice and,
/// where the new offset lies inside the module, every offset does.
pub proof fn lemma_recorded_sound(entries: Seq<OffsetEntry>, name: Seq<char>, rva: u64)
    requires
        unique_keys(entries),
    ensures
        unique_keys(recorded(entries, name, rva)),
        has_key(recorded(entries, name, rva), assigned_key(entries, name)),
        forall|size: usize|
            offsets_below(entries, size) && rva < size ==> #[trigger] offsets_below(
                recorded(entries, name, rva),
                size,
            ),
{
    if has_key(entries, name) {
        let i = position(entries, name);
        let number = bump(entries[i].collisions);
        let counted = entries.update(i, OffsetEntry { collisions: number, ..entries[i] });
        assert(forall|j: int|
            0 <= j < counted.len() ==> (#[trigger] counted[j]).key == entries[j].key);
        assert(forall|size: usize|
            offsets_below(entries, size) ==> #[trigger] offsets_below(counted, size));
        lemma_upsert(counted, suffixed(name, number), rva, name);
    } else {
        lemma_upsert(entries, name, rva, name);
        assert(recorded(entries, name, rva) =~= upsert(entries, name, rva));
    }
}

/// What filing a method named `name` does to the key `k`: a key that was
/// there stays, and its collision counter moves on by one where `k` is the
/// name that was filed and stays as it was otherwise; a name that was
/// free is there afterwards with a counter of zero.
pub proof fn lemma_recorded_counts(
    entries: Seq<OffsetEntry>,
    name: Seq<char>,
    rva: u64,
    k: Seq<char>,
)
    requires
        unique_keys(entries),
    ensures
        has_key(entries, k) ==> has_key(recorded(entries, name, rva), k) && collisions_of(
            recorded(entries, name, rva),
            k,
        ) == if k == name {
            bump(collisions_of(entries, k))
        } else {
            collisions_of(entries, k)
        },
        !has_key(entries, k) && k == name ==> has_key(recorded(entries, name, rva), k)
            && collisions_of(recorded(entries, name, rva), k) == 0,
{
    if has_key(entries, name) {
        let i = position(entries, name);
        let number = bump(entries[i].collisions);
        let counted = entries.update(i, OffsetEntry { collisions: number, ..entries[i] });
        assert(forall|j: int|
            0 <= j < counted.len() ==> (#[trigger] counted[j]).key == entries[j].key);
        lemma_suffixed_differs(name, number);
        if has_key(entries, k) {
            let j = position(entries, k);
            assert(counted[j].key == k);
            lemma_position(counted, j);
            lemma_position(entries, j);
            lemma_upsert(counted, suffixed(name, number), rva, k);
        }
    } else {
        lemma_upsert(entries, name, rva, k);
        assert(recorded(entries, name, rva) =~= upsert(entries, name, rva));
    }
}

/// The map after the given methods have been filed one after the other,
/// each with its name and offset.
pub open spec fn recorded_all(methods: Seq<(Seq<char>, u64)>) -> Seq<OffsetEntry>
    decreases methods.len(),
{
    if methods.len() == 0 {
        Seq::empty()
    } else {
        recorded(recorded_all(methods.drop_last()), methods.last().0, methods.last().1)
    }
}

/// The key under which the method at place `i` is filed.
pub open spec fn key_of(methods: Seq<(Seq<char>, u64)>, i: int) -> Seq<char> {
    assigned_key(recorded_all(methods.take(i)), methods[i].0)
}

/// How many of the methods behind place `first`, up to and including place
/// `last`, bear the name.
pub open spec fn repeats(methods: Seq<(Seq<char>, u64)>, name: Seq<char>, first: int, last: int) -> nat
    decreases last - first,
{
    if last <= first {
        0
    } else {
        repeats(methods, name, first, last - 1) + if methods[last].0 == name {
            1nat
        } else {
            0nat
        }
    }
}

/// However many methods are filed, no key stands twice in the map and
/// every offset lies inside the module that every filed offset lies in.
pub proof fn lemma_recorded_all_sound(methods: Seq<(Seq<char>, u64)>, size: usize)
    ensures
        unique_keys(recorded_all(methods)),
        (forall|i: int| 0 <= i < methods.len() ==> (#[trigger] methods[i]).1 < size)
            ==> offsets_below(recorded_all(methods), size),
    decreases methods.len(),
{
    if methods.len() > 0 {
        lemma_recorded_all_sound(methods.drop_last(), size);
        lemma_recorded_sound(
            recorded_all(methods.drop_last()),
            methods.last().0,
            methods.last().1,
        );
        if forall|i: int| 0 <= i < methods.len() ==> (#[trigger] methods[i]).1 < size {
            assert forall|i: int| 0 <= i < methods.drop_last().len() implies (
            #[trigger] methods.drop_last()[i]).1 < size by {
                assert(methods.drop_last()[i] == methods[i]);
            }
            assert(methods[methods.len() - 1].1 < size);
        }
    }
}

proof fn lemma_counter_follows_repeats(
    methods: Seq<(Seq<char>, u64)>,
    name: Seq<char>,
    first: int,
    upto: int,
)
    requires
        0 <= first < upto <= methods.len(),
        methods[first].0 == name,
        !has_key(recorded_all(methods.take(first)), name),
        upto <= u64::MAX,
    ensures
        has_key(recorded_all(methods.take(upto)), name),
        collisions_of(recorded_all(methods.take(upto)), name) == repeats(
            methods,
            name,
            first,
            upto - 1,
        ),
        repeats(methods, name, first, upto - 1) <= upto - 1 - first,
    decreases upto - first,
{
    let before = recorded_all(methods.take(upto - 1));
    assert(methods.take(upto).drop_last() =~= methods.take(upto - 1));
    assert(methods.take(upto).last() == methods[upto - 1]);
    lemma_recorded_all_sound(methods.take(upto - 1), 0);
    lemma_recorded_counts(before, methods[upto - 1].0, methods[upto - 1].1, name);
    if upto - 1 > first {
        lemma_counter_follows_repeats(methods, name, first, upto - 1);
    }
}

/// A name that comes again and again is numbered in turn. Put that the
/// name is free when a method first bears it, at place `first`: that
/// method is filed under the bare name, and the method at a later place
/// `i` that bears the name is filed under the name with the number of
/// times the name has come again by then, so that the numbers run from
/// one upwards.
pub proof fn lemma_repeated_names_are_numbered(methods: Seq<(Seq<char>, u64)>, first: int, i: int)
    requires
        0 <= first <= i < methods.len(),
        methods[i].0 == methods[first].0,
        !has_key(recorded_all(methods.take(first)), methods[first].0),
        i <= u64::MAX,
    ensures
        key_of(methods, first) == methods[first].0,
        first < i ==> key_of(methods, i) == suffixed(
            methods[i].0,
            repeats(methods, methods[i].0, first, i) as u64,
        ),
        first < i ==> 1 <= repeats(methods, methods[i].0, first, i) <= i - first,
{
    if first < i {
        lemma_counter_follows_repeats(methods, methods[first].0, first, i);
    }
}

/// An offset as the JSON text shows it: `0x` and the hexadecimal digits.
pub open spec fn offset_text(rva: u64) -> Seq<char> {
    "0x"@ + hex_digits(rva as nat)
}

/// The members of the JSON object of an offset map: each key with its
/// offset as text, in the map's order.
pub open spec fn offset_members(entries: Seq<OffsetEntry>) -> Seq<(Seq<char>, Seq<char>)> {
    entries.map_values(|e: OffsetEntry| (e.key, offset_text(e.rva)))
}

/// The two things that the offset emitter hands out: the JSON text for the
/// file and the line for the console.
pub struct MethodDump {
    pub json: String,
    pub summary: String,
}

/// What the emitter makes of the serializer's result: the text with the
/// summary line of the map, or the error of a serializer that failed.
pub fn report(offsets: &MethodOffsets, rendered: Result<String, serde_json::Error>) -> (dump:
    Result<MethodDump, DumpError>)
    requires
        offsets.wf(),
    ensures
        match rendered {
            Ok(text) => dump is Ok && dump->Ok_0.json@ == text@ && dump->Ok_0.summary@
                == summary_text(offsets@.len()),
            Err(_) => dump is Err && dump->Err_0 == DumpError::Serialize,
        },
{
    match rendered {
        Ok(json) => Ok(MethodDump { json, summary: offsets.summary() }),
        Err(_) => Err(DumpError::Serialize),
    }
}

/// Serializes an offset map: every entry goes into a JSON object, in the
/// map's order, under its key and with its offset as text, and the object
/// is pretty-printed. What comes back is what the serializer makes of
/// exactly these members.
pub fn render(offsets: &MethodOffsets) -> (text: Result<String, serde_json::Error>)
    requires
        offsets.wf(),
    ensures
        rendered_text(text) == pretty_json(offset_members(offsets@)),
{
    let ghost members = offset_members(offsets@);
    let mut object = json_object();
    let mut i: usize = 0;
    while i < offsets.len()
        invariant
            i <= offsets@.len(),
            offsets.wf(),
            members == offset_members(offsets@),
            json_members(object) == members.take(i as int),
        decreases offsets@.len() - i,
    {
        let key = offsets.key(i).clone();
        let mut value = String::from_str("0x");
        push_hex(&mut value, offsets.rva(i));
        proof {
            let before = members.take(i as int);
            assert(!has_member(before, key@)) by {
                if has_member(before, key@) {
                    let j = choose|j: int| 0 <= j < before.len() && (#[trigger] before[j]).0 == key@;
                    assert(offsets@[j].key == offsets@[i as int].key);
                }
            }
            assert(members.take(i + 1) =~= before.push((key@, value@)));
        }
        json_insert(&mut object, key, value);
        i = i + 1;
    }
    proof {
        assert(members.take(i as int) =~= members);
    }
    json_pretty(object)
}

/// Builds what the offset emitter hands out for a finished map: the
/// serialized map with the summary line that counts its keys, or the error
/// of a serializer that failed.
pub fn dump(offsets: &MethodOffsets) -> (dump: Result<MethodDump, DumpError>)
    requires
        offsets.wf(),
    ensures
        match pretty_json(offset_members(offsets@)) {
            Some(text) => dump is Ok && dump->Ok_0.json@ == text && dump->Ok_0.summary@
                == summary_text(offset_members(offsets@).len()),
            None => dump is Err && dump->Err_0 == DumpError::Serialize,
        },
{
    let rendered = render(offsets);
    report(offsets, rendered)
}

/// The JSON object of an offset map has one member for each entry of the
/// map, under the entry's key, and no two members share a key: the number
/// that the summary line reports is the number of keys in the file.
pub proof fn lemma_members_match_entries(entries: Seq<OffsetEntry>)
    requires
        unique_keys(entries),
    ensures
        offset_members(entries).len() == entries.len(),
        forall|i: int|
            0 <= i < entries.len() ==> (#[trigger] offset_members(entries)[i]).0 == entries[i].key,
        forall|i: int, j: int|
            0 <= i < j < entries.len() ==> (#[trigger] offset_members(entries)[i]).0 != (
            #[trigger] offset_members(entries)[j]).0,
{
    assert forall|i: int, j: int| 0 <= i < j < entries.len() implies (#[trigger] offset_members(
        entries,
    )[i]).0 != (#[trigger] offset_members(entries)[j]).0 by {
        assert(entries[i].key != entries[j].key);
    }
}

/// The map after the given methods have been filed on top of what it
/// holds, one after the other.
pub open spec fn recorded_onto(entries: Seq<OffsetEntry>, methods: Seq<(Seq<char>, u64)>) -> Seq<
    OffsetEntry,
>
    decreases methods.len(),
{
    if methods.len() == 0 {
        entries
    } else {
        recorded(recorded_onto(entries, methods.drop_last()), methods.last().0, methods.last().1)
    }
}

/// Filing onto an empty map is filing from the start.
pub proof fn lemma_recorded_onto_empty(methods: Seq<(Seq<char>, u64)>)
    ensures
        recorded_onto(Seq::empty(), methods) == recorded_all(methods),
    decreases methods.len(),
{
    if methods.len() > 0 {
        lemma_recorded_onto_empty(methods.drop_last());
    }
}

/// Filing two lists one after the other is filing their concatenation.
pub proof fn lemma_recorded_onto_concat(
    entries: Seq<OffsetEntry>,
    first: Seq<(Seq<char>, u64)>,
    second: Seq<(Seq<char>, u64)>,
)
    ensures
        recorded_onto(entries, first + second) == recorded_onto(
            recorded_onto(entries, first),
            second,
        ),
    decreases second.len(),
{
    if second.len() == 0 {
        assert(first + second =~= first);
    } else {
        lemma_recorded_onto_concat(entries, first, second.drop_last());
        assert((first + second).drop_last() =~= first + second.drop_last());
        assert((first + second).last() == second.last());
    }
}

/// A method is filed under its bare name exactly where the name is free.
pub proof fn lemma_bare_key_needs_free_name(entries: Seq<OffsetEntry>, name: Seq<char>)
    ensures
        assigned_key(entries, name) == name <==> !has_key(entries, name),
{
    if has_key(entries, name) {
        lemma_suffixed_differs(name, bump(entries[position(entries, name)].collisions));
    }
}

} // verus!
