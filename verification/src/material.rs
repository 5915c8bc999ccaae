//! Planning of the textures that a material loader works with, and the
//! order in which the configured loaders are tried.
//!
//! A material loader names the texture slots it wants: those it preprocesses
//! itself ("dynamic") and those it takes as they are ("static"). It then
//! builds a material from the textures bound to these slots, or declines.
//! The loaders are tried in the order of their registration and the first
//! that builds a material wins.

use vstd::prelude::*;
use crate::data::TextureHandle;
use crate::label::{
    name_text, synthesized_texture_label, synthesized_texture_label_text, texture_label,
    texture_label_text,
};
use crate::texture::TextureObject;

verus! {

/// A texture of a material, with the name of the slot that it fills.
pub struct TextureSlot {
    /// The slot name: the label of the connection in the document.
    pub slot: String,
    /// The texture object.
    pub texture: TextureObject,
}

/// A material object of the document.
pub struct MaterialObject {
    /// The object's name.
    pub name: Option<String>,
    /// The object's id.
    pub id: i64,
    /// The textures connected to the material, in document order.
    pub textures: Vec<TextureSlot>,
}

/// The slots that a material loader wants.
pub struct MaterialLoader {
    /// The slots whose textures are handed to the loader as they are.
    pub static_load: Vec<String>,
    /// The slots whose images the loader preprocesses before they become
    /// textures.
    pub dynamic_load: Vec<String>,
}

/// The first among the first `n` textures that fills `slot`.
pub open spec fn find_slot(textures: Seq<TextureSlot>, slot: Seq<char>, n: nat) -> Option<int>
    decreases n,
{
    if n == 0 {
        None
    } else {
        match find_slot(textures, slot, (n - 1) as nat) {
            Some(i) => Some(i),
            None => if textures[n - 1].slot@ == slot {
                Some(n - 1)
            } else {
                None
            },
        }
    }
}

/// `find_slot` gives the least index of a texture that fills the slot.
pub proof fn lemma_find_slot(textures: Seq<TextureSlot>, slot: Seq<char>, n: nat)
    ensures
        match find_slot(textures, slot, n) {
            Some(i) => 0 <= i < n && textures[i].slot@ == slot && forall|j: int|
                0 <= j < i ==> textures[j].slot@ != slot,
            None => forall|j: int| 0 <= j < n ==> textures[j].slot@ != slot,
        },
    decreases n,
{
    if n > 0 {
        lemma_find_slot(textures, slot, (n - 1) as nat);
    }
}

/// A slot of a loader for which the material has a texture.
pub struct ConnectedTexture {
    /// The slot name.
    pub slot: String,
    /// The index of the texture among the textures of the material.
    pub texture: usize,
}

/// What a connected texture holds.
pub ghost struct ConnectedView {
    pub slot: Seq<char>,
    pub texture: int,
}

impl View for ConnectedTexture {
    type V = ConnectedView;

    open spec fn view(&self) -> ConnectedView {
        ConnectedView { slot: self.slot@, texture: self.texture as int }
    }
}

/// The views of a list of connected textures.
pub open spec fn connected_views(list: Seq<ConnectedTexture>) -> Seq<ConnectedView> {
    Seq::new(list.len(), |i: int| list[i]@)
}

/// Where the image of a texture binding comes from.
#[derive(Clone, Copy, Debug, PartialEq, Eq)]
pub enum TextureSource {
    /// The loader produced the image when it preprocessed its slots.
    Processed,
    /// The texture object at this index among the textures of the material.
    Object(usize),
}

/// A texture that a loader's material is built with.
pub struct TextureBinding {
    /// The slot that the texture fills.
    pub slot: String,
    /// The label under which the texture is cached.
    pub label: String,
    /// Where the image comes from.
    pub source: TextureSource,
}

/// What a texture binding holds.
pub ghost struct BindingView {
    pub slot: Seq<char>,
    pub label: Seq<char>,
    pub source: TextureSource,
}

impl View for TextureBinding {
    type V = BindingView;

    open spec fn view(&self) -> BindingView {
        BindingView { slot: self.slot@, label: self.label@, source: self.source }
    }
}

/// The views of a list of texture bindings.
pub open spec fn binding_views(list: Seq<TextureBinding>) -> Seq<BindingView> {
    Seq::new(list.len(), |i: int| list[i]@)
}

/// The views of a list of slot names.
pub open spec fn slot_names(slots: Seq<String>) -> Seq<Seq<char>> {
    Seq::new(slots.len(), |i: int| slots[i]@)
}

impl MaterialObject {
    /// The index of the texture that fills `slot`: the first one connected
    /// under that name.
    pub open spec fn texture_index(self, slot: Seq<char>) -> Option<int> {
        find_slot(self.textures@, slot, self.textures@.len())
    }

    /// Among the first `n` of `slots`, those for which the material has a
    /// texture, in order, each with the index of its texture.
    pub open spec fn connected(self, slots: Seq<Seq<char>>, n: nat) -> Seq<ConnectedView>
        decreases n,
    {
        if n == 0 || n > slots.len() {
            Seq::empty()
        } else {
            let before = self.connected(slots, (n - 1) as nat);
            match self.texture_index(slots[n - 1]) {
                Some(i) => before.push(ConnectedView { slot: slots[n - 1], texture: i }),
                None => before,
            }
        }
    }

    /// The binding of the image that a loader produced for `slot`. Its
    /// label is made from the material and the slot.
    pub open spec fn processed_binding(self, slot: Seq<char>) -> BindingView {
        BindingView {
            slot,
            label: synthesized_texture_label_text(name_text(self.name), self.id as int, slot),
            source: TextureSource::Processed,
        }
    }

    /// The binding of a texture object of the material to a slot. Its label
    /// is that of the texture object.
    pub open spec fn object_binding(self, connected: ConnectedView) -> BindingView {
        BindingView {
            slot: connected.slot,
            label: texture_label_text(
                name_text(self.textures@[connected.texture].texture.name),
                self.textures@[connected.texture].texture.id as int,
            ),
            source: TextureSource::Object(connected.texture as usize),
        }
    }

    /// The bindings of one run of a loader: first the images that the loader
    /// holds after preprocessing, in the order given, then the static slots
    /// for which the material has a texture.
    pub open spec fn bindings(self, processed: Seq<Seq<char>>, static_load: Seq<Seq<char>>) -> Seq<
        BindingView,
    > {
        let connected = self.connected(static_load, static_load.len());
        Seq::new(processed.len(), |i: int| self.processed_binding(processed[i])) + Seq::new(
            connected.len(),
            |i: int| self.object_binding(connected[i]),
        )
    }

    /// Looks up the texture that fills `slot`.
    pub fn load_texture(&self, slot: &str) -> (found: Option<usize>)
        ensures
            match found {
                Some(i) => self.texture_index(slot@) == Some(i as int) && i < self.textures@.len(),
                None => self.texture_index(slot@) is None,
            },
    {
        let wanted = String::from_str(slot);
        let mut i: usize = 0;
        while i < self.textures.len()
            invariant
                i <= self.textures@.len(),
                wanted@ == slot@,
                find_slot(self.textures@, slot@, i as nat) is None,
            decreases self.textures@.len() - i,
        {
            if self.textures[i].slot == wanted {
                proof {
                    lemma_find_slot_found(self.textures@, slot@, i as nat, self.textures@.len());
                }
                return Some(i);
            }
            i = i + 1;
        }
        None
    }

    /// Picks from `slots` those for which the material has a texture.
    pub fn connected_textures(&self, slots: &Vec<String>) -> (list: Vec<ConnectedTexture>)
        ensures
            connected_views(list@) == self.connected(slot_names(slots@), slots@.len()),
    {
        let mut list: Vec<ConnectedTexture> = Vec::new();
        let mut i: usize = 0;
        assert(connected_views(list@) =~= self.connected(slot_names(slots@), 0));
        while i < slots.len()
            invariant
                i <= slots@.len(),
                connected_views(list@) == self.connected(slot_names(slots@), i as nat),
            decreases slots@.len() - i,
        {
            let ghost before = connected_views(list@);
            match self.load_texture(slots[i].as_str()) {
                Some(texture) => {
                    list.push(ConnectedTexture { slot: slots[i].clone(), texture });
                    assert(connected_views(list@) =~= before.push(
                        ConnectedView { slot: slots@[i as int]@, texture: texture as int },
                    ));
                },
                None => {},
            }
            i = i + 1;
        }
        list
    }
}

impl MaterialObject {
    /// Lists the textures that one run of `loader` binds, in the order in
    /// which they are bound. `processed` names the slots for which the
    /// loader holds an image after preprocessing.
    pub fn texture_bindings(
        &self,
        processed: &Vec<String>,
        loader: &MaterialLoader,
    ) -> (list: Vec<TextureBinding>)
        ensures
            binding_views(list@) == self.bindings(
                slot_names(processed@),
                slot_names(loader.static_load@),
            ),
    {
        let mut list: Vec<TextureBinding> = Vec::new();
        let mut i: usize = 0;
        while i < processed.len()
            invariant
                i <= processed@.len(),
                list@.len() == i,
                forall|j: int|
                    0 <= j < i ==> (#[trigger] list@[j])@ == self.processed_binding(
                        processed@[j]@,
                    ),
            decreases processed@.len() - i,
        {
            let slot = processed[i].clone();
            let label = synthesized_texture_label(&self.name, self.id, slot.as_str());
            list.push(TextureBinding { slot, label, source: TextureSource::Processed });
            i = i + 1;
        }
        let connected = self.connected_textures(&loader.static_load);
        let ghost wanted = self.connected(
            slot_names(loader.static_load@),
            loader.static_load@.len(),
        );
        proof {
            lemma_connected_in_range(
                *self,
                slot_names(loader.static_load@),
                loader.static_load@.len(),
            );
        }
        let mut k: usize = 0;
        while k < connected.len()
            invariant
                k <= connected@.len(),
                connected_views(connected@) == wanted,
                forall|j: int|
                    0 <= j < wanted.len() ==> 0 <= (#[trigger] wanted[j]).texture
                        < self.textures@.len(),
                list@.len() == processed@.len() + k,
                forall|j: int|
                    0 <= j < processed@.len() ==> (#[trigger] list@[j])@
                        == self.processed_binding(processed@[j]@),
                forall|j: int|
                    processed@.len() <= j < processed@.len() + k ==> (#[trigger] list@[j])@
                        == self.object_binding(wanted[j - processed@.len()]),
            decreases connected@.len() - k,
        {
            let entry = &connected[k];
            assert(connected_views(connected@)[k as int] == entry@);
            let texture = &self.textures[entry.texture].texture;
            let label = texture_label(&texture.name, texture.id);
            list.push(
                TextureBinding {
                    slot: entry.slot.clone(),
                    label,
                    source: TextureSource::Object(entry.texture),
                },
            );
            k = k + 1;
        }
        proof {
            let names = slot_names(processed@);
            let head = Seq::new(names.len(), |i: int| self.processed_binding(names[i]));
            let tail = Seq::new(wanted.len(), |i: int| self.object_binding(wanted[i]));
            assert(connected@.len() == wanted.len());
            assert forall|j: int| 0 <= j < list@.len() implies binding_views(list@)[j] == (head
                + tail)[j] by {
                if j < processed@.len() {
                    assert(list@[j]@ == self.processed_binding(processed@[j]@));
                } else {
                    assert(list@[j]@ == self.object_binding(wanted[j - processed@.len()]));
                }
            }
            assert(binding_views(list@) =~= head + tail);
        }
        list
    }
}

/// Every connected texture is a texture of the material.
pub proof fn lemma_connected_in_range(material: MaterialObject, slots: Seq<Seq<char>>, n: nat)
    ensures
        ({
            let list = material.connected(slots, n);
            forall|j: int|
                0 <= j < list.len() ==> 0 <= (#[trigger] list[j]).texture
                    < material.textures@.len()
        }),
    decreases n,
{
    if n > 0 && n <= slots.len() {
        lemma_connected_in_range(material, slots, (n - 1) as nat);
        lemma_find_slot(material.textures@, slots[n - 1], material.textures@.len());
        let before = material.connected(slots, (n - 1) as nat);
        let list = material.connected(slots, n);
        assert forall|j: int| 0 <= j < list.len() implies 0 <= (#[trigger] list[j]).texture
            < material.textures@.len() by {
            if j < before.len() {
                assert(list[j] == before[j]);
            }
        }
    }
}

/// One texture bound to a slot.
pub struct SlotEntry {
    /// The slot name.
    pub slot: String,
    /// The texture.
    pub texture: TextureHandle,
}

/// The textures that a material is built with, by slot name. Where a slot
/// is bound more than once, the last binding holds.
pub struct SlotBindings {
    /// The bindings in the order in which they were made.
    pub entries: Vec<SlotEntry>,
}

/// The map that the first `n` bindings make.
pub open spec fn bound_slots(entries: Seq<SlotEntry>, n: nat) -> Map<Seq<char>, TextureHandle>
    decreases n,
{
    if n == 0 || n > entries.len() {
        Map::empty()
    } else {
        bound_slots(entries, (n - 1) as nat).insert(entries[n - 1].slot@, entries[n - 1].texture)
    }
}

/// The map of the first `n` bindings does not depend on later bindings.
pub proof fn lemma_bound_slots_prefix(entries: Seq<SlotEntry>, longer: Seq<SlotEntry>, n: nat)
    requires
        n <= entries.len() <= longer.len(),
        forall|i: int| 0 <= i < entries.len() ==> entries[i] == longer[i],
    ensures
        bound_slots(entries, n) == bound_slots(longer, n),
    decreases n,
{
    if n > 0 {
        lemma_bound_slots_prefix(entries, longer, (n - 1) as nat);
    }
}

impl View for SlotBindings {
    type V = Map<Seq<char>, TextureHandle>;

    open spec fn view(&self) -> Map<Seq<char>, TextureHandle> {
        bound_slots(self.entries@, self.entries@.len())
    }
}

impl SlotBindings {
    /// No bindings.
    pub fn new() -> (bindings: Self)
        ensures
            bindings@ == Map::<Seq<char>, TextureHandle>::empty(),
    {
        SlotBindings { entries: Vec::new() }
    }

    /// Binds `texture` to `slot`, in place of what was bound to it.
    pub fn insert(&mut self, slot: String, texture: TextureHandle)
        ensures
            final(self)@ == old(self)@.insert(slot@, texture),
    {
        let ghost before = self.entries@;
        self.entries.push(SlotEntry { slot, texture });
        proof {
            lemma_bound_slots_prefix(before, self.entries@, before.len());
        }
    }

    /// The texture bound to `slot`.
    pub fn get(&self, slot: &str) -> (found: Option<TextureHandle>)
        ensures
            found == if self@.dom().contains(slot@) {
                Some(self@[slot@])
            } else {
                None
            },
    {
        let wanted = String::from_str(slot);
        let mut i: usize = self.entries.len();
        while i > 0
            invariant
                i <= self.entries@.len(),
                wanted@ == slot@,
                self@.dom().contains(slot@) == bound_slots(self.entries@, i as nat).dom().contains(
                    slot@,
                ),
                self@.dom().contains(slot@) ==> self@[slot@] == bound_slots(
                    self.entries@,
                    i as nat,
                )[slot@],
            decreases i,
        {
            if self.entries[i - 1].slot == wanted {
                return Some(self.entries[i - 1].texture);
            }
            i = i - 1;
        }
        None
    }
}

/// Where the chain of material loaders stands.
#[derive(Clone, Copy, Debug, PartialEq, Eq)]
pub enum ChainState {
    /// The loader at this index is to be run next.
    Try(usize),
    /// The loader at this index built the material; no other is run.
    Built(usize),
    /// Every loader declined.
    Exhausted,
}

/// The state of the chain before any loader has run.
pub open spec fn chain_begin(num_loaders: nat) -> ChainState {
    if num_loaders == 0 {
        ChainState::Exhausted
    } else {
        ChainState::Try(0)
    }
}

/// The state of the chain after the loader that `state` asked for has run
/// and has built a material, or has declined.
pub open spec fn chain_next(state: ChainState, num_loaders: nat, built: bool) -> ChainState {
    match state {
        ChainState::Try(i) => if built {
            ChainState::Built(i)
        } else if i + 1 < num_loaders {
            ChainState::Try((i + 1) as usize)
        } else {
            ChainState::Exhausted
        },
        done => done,
    }
}

/// The state of the chain after at most `steps` loaders have run, where
/// `outcomes[i]` says whether loader `i` builds the material.
pub open spec fn chain_after(outcomes: Seq<bool>, steps: nat) -> ChainState
    decreases steps,
{
    if steps == 0 {
        chain_begin(outcomes.len())
    } else {
        match chain_after(outcomes, (steps - 1) as nat) {
            ChainState::Try(i) => {
                chain_next(ChainState::Try(i), outcomes.len(), outcomes[i as int])
            },
            done => done,
        }
    }
}

/// The first loader that builds the material.
pub open spec fn first_success(outcomes: Seq<bool>, n: nat) -> Option<int>
    decreases n,
{
    if n == 0 {
        None
    } else {
        match first_success(outcomes, (n - 1) as nat) {
            Some(i) => Some(i),
            None => if outcomes[n - 1] {
                Some(n - 1)
            } else {
                None
            },
        }
    }
}

/// Starts the chain of `num_loaders` loaders.
pub fn chain_start(num_loaders: usize) -> (state: ChainState)
    ensures
        state == chain_begin(num_loaders as nat),
{
    if num_loaders == 0 {
        ChainState::Exhausted
    } else {
        ChainState::Try(0)
    }
}

/// Advances the chain after the loader that `state` asked for has run.
pub fn chain_advance(state: ChainState, num_loaders: usize, built: bool) -> (next: ChainState)
    ensures
        next == chain_next(state, num_loaders as nat, built),
{
    match state {
        ChainState::Try(i) => {
            if built {
                ChainState::Built(i)
            } else if i < usize::MAX && i + 1 < num_loaders {
                ChainState::Try(i + 1)
            } else {
                ChainState::Exhausted
            }
        },
        ChainState::Built(i) => ChainState::Built(i),
        ChainState::Exhausted => ChainState::Exhausted,
    }
}

/// While no loader has built the material, the chain asks for the loaders
/// one after the other.
proof fn lemma_chain_progress(outcomes: Seq<bool>, steps: nat)
    requires
        steps <= outcomes.len(),
        outcomes.len() <= usize::MAX,
    ensures
        match first_success(outcomes, steps) {
            Some(i) => chain_after(outcomes, steps) == ChainState::Built(i as usize),
            None => chain_after(outcomes, steps) == if steps < outcomes.len() {
                ChainState::Try(steps as usize)
            } else {
                ChainState::Exhausted
            },
        },
    decreases steps,
{
    if steps > 0 {
        lemma_chain_progress(outcomes, (steps - 1) as nat);
    }
}

/// The law of the loader chain: run to its end, the chain stops at the
/// first loader that builds the material, and is exhausted exactly when no
/// loader builds it. No loader behind the first success is ever asked for.
pub proof fn lemma_chain_picks_first(outcomes: Seq<bool>)
    requires
        outcomes.len() <= usize::MAX,
    ensures
        match first_success(outcomes, outcomes.len()) {
            Some(i) => {
                &&& chain_after(outcomes, outcomes.len()) == ChainState::Built(i as usize)
                &&& 0 <= i < outcomes.len() && outcomes[i]
                &&& forall|j: int| 0 <= j < i ==> !outcomes[j]
            },
            None => {
                &&& chain_after(outcomes, outcomes.len()) == ChainState::Exhausted
                &&& forall|j: int| 0 <= j < outcomes.len() ==> !outcomes[j]
            },
        },
{
    lemma_chain_progress(outcomes, outcomes.len());
    lemma_first_success(outcomes, outcomes.len());
}

/// `first_success` gives the least index of a loader that builds.
pub proof fn lemma_first_success(outcomes: Seq<bool>, n: nat)
    ensures
        match first_success(outcomes, n) {
            Some(i) => 0 <= i < n && outcomes[i] && forall|j: int| 0 <= j < i ==> !outcomes[j],
            None => forall|j: int| 0 <= j < n ==> !outcomes[j],
        },
    decreases n,
{
    if n > 0 {
        lemma_first_success(outcomes, (n - 1) as nat);
    }
}

/// A match at index `i`, with none before it, is the first match of every
/// longer prefix.
proof fn lemma_find_slot_found(textures: Seq<TextureSlot>, slot: Seq<char>, i: nat, n: nat)
    requires
        i < n,
        find_slot(textures, slot, i) is None,
        textures[i as int].slot@ == slot,
    ensures
        find_slot(textures, slot, n) == Some(i as int),
    decreases n,
{
    if n > i + 1 {
        lemma_find_slot_found(textures, slot, i, (n - 1) as nat);
    }
}

} // verus!
