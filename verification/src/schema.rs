//! The kinds of entry that a chart's lists hold, each with its fields in the
//! order of the schema.

use vstd::prelude::*;
use crate::chart::{
    CustomAudioSampleInfo, CustomAudioSampleView, EditorLayerInfo, EditorLayerView, HitObjectInfo,
    HitObjectView, KeySoundInfo, ScrollVelocityInfo, ScrollVelocityView, SoundEffectInfo,
    SoundEffectView, TimingPointInfo, TimingPointView,
};
use crate::entry::{lemma_entries_round_trip, list_at, list_field, list_value, trees_of, Entry};
use crate::field::{
    effect_fields, key_sound_fields, keys_of, layer_fields, lemma_effect_keys_distinct,
    lemma_key_sound_keys_distinct, lemma_layer_keys_distinct, lemma_note_keys_distinct,
    lemma_sample_keys_distinct, lemma_timing_keys_distinct, lemma_velocity_keys_distinct,
    note_fields, sample_fields, timing_fields, velocity_fields, Field,
};
use crate::mode::TimeSignature;
use crate::read::{
    bool_at, bool_field, byte_at, byte_field, fields, int_at, int_field, is_record, number_at,
    number_field, signature_at, signature_field, text_at, text_field,
};
use crate::tree::{lemma_distinct_text_keys, lemma_lookup_distinct, Num, Tree};
use crate::write::{
    bool_entry, entry_trees, finish, int_entry, list_entry, number_entry, put,
    put_bool, put_int, put_number, put_signature, put_text, text_entry,
};
use crate::yaml::{is_mapping, is_null};

verus! {

impl Entry for EditorLayerInfo {
    open spec fn of_tree(t: Tree) -> Result<EditorLayerView, Field> {
        let m = fields(t);
        let name = text_at(m, Field::LayerName, Seq::empty());
        let hidden = bool_at(m, Field::LayerHidden, false);
        let color_rgb = text_at(m, Field::LayerColorRgb, "255,255,255"@);
        if !is_record(t) {
            Err(Field::EditorLayers)
        } else if name is Err {
            Err(name->Err_0)
        } else if hidden is Err {
            Err(hidden->Err_0)
        } else if color_rgb is Err {
            Err(color_rgb->Err_0)
        } else {
            Ok(
                EditorLayerView {
                    name: name->Ok_0,
                    hidden: hidden->Ok_0,
                    color_rgb: color_rgb->Ok_0,
                },
            )
        }
    }

    open spec fn tree_of(x: EditorLayerView) -> Tree {
        Tree::Mapping(
            seq![
                text_entry(Field::LayerName, x.name),
                bool_entry(Field::LayerHidden, x.hidden),
                text_entry(Field::LayerColorRgb, x.color_rgb),
            ],
        )
    }

    proof fn lemma_round_trip(x: EditorLayerView) {
        let m = Self::tree_of(x)->Mapping_0;
        let ks = keys_of(layer_fields());
        lemma_layer_keys_distinct();
        lemma_lookup_distinct(m, ks, 0);
        lemma_lookup_distinct(m, ks, 1);
        lemma_lookup_distinct(m, ks, 2);
    }

    fn from_value(v: &serde_yaml::Value) -> (r: Result<Self, Field>) {
        proof {
            reveal_strlit("");
            assert(""@ =~= Seq::<char>::empty());
        }
        if !(is_null(v) || is_mapping(v)) {
            return Err(Field::EditorLayers);
        }
        let name = text_field(v, Field::LayerName, "")?;
        let hidden = bool_field(v, Field::LayerHidden, false)?;
        let color_rgb = text_field(v, Field::LayerColorRgb, "255,255,255")?;
        Ok(EditorLayerInfo { name, hidden, color_rgb })
    }

    fn to_value(&self) -> (v: serde_yaml::Value) {
        let mut out: Vec<(serde_yaml::Value, serde_yaml::Value)> = Vec::new();
        proof {
            assert(entry_trees(out@) =~= Seq::empty());
        }
        put_text(&mut out, Field::LayerName, self.name.as_str());
        put_bool(&mut out, Field::LayerHidden, self.hidden);
        put_text(&mut out, Field::LayerColorRgb, self.color_rgb.as_str());
        proof {
            Self::lemma_round_trip(self@);
            lemma_layer_keys_distinct();
            assert(entry_trees(out@) =~= Self::tree_of(self@)->Mapping_0);
            lemma_distinct_text_keys(entry_trees(out@), keys_of(layer_fields()));
        }
        finish(out)
    }
}

impl Entry for CustomAudioSampleInfo {
    open spec fn of_tree(t: Tree) -> Result<CustomAudioSampleView, Field> {
        let m = fields(t);
        let path = text_at(m, Field::SamplePath, Seq::empty());
        let unaffected_by_rate = bool_at(m, Field::SampleUnaffectedByRate, false);
        if !is_record(t) {
            Err(Field::CustomAudioSamples)
        } else if path is Err {
            Err(path->Err_0)
        } else if unaffected_by_rate is Err {
            Err(unaffected_by_rate->Err_0)
        } else {
            Ok(
                CustomAudioSampleView {
                    path: path->Ok_0,
                    unaffected_by_rate: unaffected_by_rate->Ok_0,
                },
            )
        }
    }

    open spec fn tree_of(x: CustomAudioSampleView) -> Tree {
        Tree::Mapping(
            seq![
                text_entry(Field::SamplePath, x.path),
                bool_entry(Field::SampleUnaffectedByRate, x.unaffected_by_rate),
            ],
        )
    }

    proof fn lemma_round_trip(x: CustomAudioSampleView) {
        let m = Self::tree_of(x)->Mapping_0;
        let ks = keys_of(sample_fields());
        lemma_sample_keys_distinct();
        lemma_lookup_distinct(m, ks, 0);
        lemma_lookup_distinct(m, ks, 1);
    }

    fn from_value(v: &serde_yaml::Value) -> (r: Result<Self, Field>) {
        proof {
            reveal_strlit("");
            assert(""@ =~= Seq::<char>::empty());
        }
        if !(is_null(v) || is_mapping(v)) {
            return Err(Field::CustomAudioSamples);
        }
        let path = text_field(v, Field::SamplePath, "")?;
        let unaffected_by_rate = bool_field(v, Field::SampleUnaffectedByRate, false)?;
        Ok(CustomAudioSampleInfo { path, unaffected_by_rate })
    }

    fn to_value(&self) -> (v: serde_yaml::Value) {
        let mut out: Vec<(serde_yaml::Value, serde_yaml::Value)> = Vec::new();
        proof {
            assert(entry_trees(out@) =~= Seq::empty());
        }
        put_text(&mut out, Field::SamplePath, self.path.as_str());
        put_bool(&mut out, Field::SampleUnaffectedByRate, self.unaffected_by_rate);
        proof {
            Self::lemma_round_trip(self@);
            lemma_sample_keys_distinct();
            assert(entry_trees(out@) =~= Self::tree_of(self@)->Mapping_0);
            lemma_distinct_text_keys(entry_trees(out@), keys_of(sample_fields()));
        }
        finish(out)
    }
}

impl Entry for SoundEffectInfo {
    open spec fn of_tree(t: Tree) -> Result<SoundEffectView, Field> {
        let m = fields(t);
        let start_time = number_at(m, Field::EffectStartTime, Num::Int(0));
        let sample = int_at(m, Field::EffectSample, 0);
        let volume = int_at(m, Field::EffectVolume, 0);
        if !is_record(t) {
            Err(Field::SoundEffects)
        } else if start_time is Err {
            Err(start_time->Err_0)
        } else if sample is Err {
            Err(sample->Err_0)
        } else if volume is Err {
            Err(volume->Err_0)
        } else {
            Ok(
                SoundEffectView {
                    start_time: start_time->Ok_0,
                    sample: sample->Ok_0,
                    volume: volume->Ok_0,
                },
            )
        }
    }

    open spec fn tree_of(x: SoundEffectView) -> Tree {
        Tree::Mapping(
            seq![
                number_entry(Field::EffectStartTime, x.start_time),
                int_entry(Field::EffectSample, x.sample as int),
                int_entry(Field::EffectVolume, x.volume as int),
            ],
        )
    }

    proof fn lemma_round_trip(x: SoundEffectView) {
        let m = Self::tree_of(x)->Mapping_0;
        let ks = keys_of(effect_fields());
        lemma_effect_keys_distinct();
        lemma_lookup_distinct(m, ks, 0);
        lemma_lookup_distinct(m, ks, 1);
        lemma_lookup_distinct(m, ks, 2);
    }

    fn from_value(v: &serde_yaml::Value) -> (r: Result<Self, Field>) {
        if !(is_null(v) || is_mapping(v)) {
            return Err(Field::SoundEffects);
        }
        let start_time = number_field(v, Field::EffectStartTime, 0)?;
        let sample = int_field(v, Field::EffectSample, 0)?;
        let volume = int_field(v, Field::EffectVolume, 0)?;
        Ok(SoundEffectInfo { start_time, sample, volume })
    }

    fn to_value(&self) -> (v: serde_yaml::Value) {
        let mut out: Vec<(serde_yaml::Value, serde_yaml::Value)> = Vec::new();
        proof {
            assert(entry_trees(out@) =~= Seq::empty());
        }
        put_number(&mut out, Field::EffectStartTime, &self.start_time);
        put_int(&mut out, Field::EffectSample, self.sample as i64);
        put_int(&mut out, Field::EffectVolume, self.volume as i64);
        proof {
            Self::lemma_round_trip(self@);
            lemma_effect_keys_distinct();
            assert(entry_trees(out@) =~= Self::tree_of(self@)->Mapping_0);
            lemma_distinct_text_keys(entry_trees(out@), keys_of(effect_fields()));
        }
        finish(out)
    }
}

impl Entry for TimingPointInfo {
    open spec fn of_tree(t: Tree) -> Result<TimingPointView, Field> {
        let m = fields(t);
        let start_time = number_at(m, Field::TimingStartTime, Num::Int(0));
        let bpm = number_at(m, Field::TimingBpm, Num::Int(0));
        let signature = signature_at(m, Field::TimingSignature, TimeSignature::Quadruple);
        let hidden = bool_at(m, Field::TimingHidden, false);
        if !is_record(t) {
            Err(Field::TimingPoints)
        } else if start_time is Err {
            Err(start_time->Err_0)
        } else if bpm is Err {
            Err(bpm->Err_0)
        } else if signature is Err {
            Err(signature->Err_0)
        } else if hidden is Err {
            Err(hidden->Err_0)
        } else {
            Ok(
                TimingPointView {
                    start_time: start_time->Ok_0,
                    bpm: bpm->Ok_0,
                    signature: signature->Ok_0,
                    hidden: hidden->Ok_0,
                },
            )
        }
    }

    open spec fn tree_of(x: TimingPointView) -> Tree {
        Tree::Mapping(
            seq![
                number_entry(Field::TimingStartTime, x.start_time),
                number_entry(Field::TimingBpm, x.bpm),
                int_entry(Field::TimingSignature, x.signature.code()),
                bool_entry(Field::TimingHidden, x.hidden),
            ],
        )
    }

    proof fn lemma_round_trip(x: TimingPointView) {
        let m = Self::tree_of(x)->Mapping_0;
        let ks = keys_of(timing_fields());
        lemma_timing_keys_distinct();
        lemma_lookup_distinct(m, ks, 0);
        lemma_lookup_distinct(m, ks, 1);
        lemma_lookup_distinct(m, ks, 2);
        lemma_lookup_distinct(m, ks, 3);
    }

    fn from_value(v: &serde_yaml::Value) -> (r: Result<Self, Field>) {
        if !(is_null(v) || is_mapping(v)) {
            return Err(Field::TimingPoints);
        }
        let start_time = number_field(v, Field::TimingStartTime, 0)?;
        let bpm = number_field(v, Field::TimingBpm, 0)?;
        let signature = signature_field(v, Field::TimingSignature, TimeSignature::Quadruple)?;
        let hidden = bool_field(v, Field::TimingHidden, false)?;
        Ok(TimingPointInfo { start_time, bpm, signature, hidden })
    }

    fn to_value(&self) -> (v: serde_yaml::Value) {
        let mut out: Vec<(serde_yaml::Value, serde_yaml::Value)> = Vec::new();
        proof {
            assert(entry_trees(out@) =~= Seq::empty());
        }
        put_number(&mut out, Field::TimingStartTime, &self.start_time);
        put_number(&mut out, Field::TimingBpm, &self.bpm);
        put_signature(&mut out, Field::TimingSignature, self.signature);
        put_bool(&mut out, Field::TimingHidden, self.hidden);
        proof {
            Self::lemma_round_trip(self@);
            lemma_timing_keys_distinct();
            assert(entry_trees(out@) =~= Self::tree_of(self@)->Mapping_0);
            lemma_distinct_text_keys(entry_trees(out@), keys_of(timing_fields()));
        }
        finish(out)
    }
}

impl Entry for ScrollVelocityInfo {
    open spec fn of_tree(t: Tree) -> Result<ScrollVelocityView, Field> {
        let m = fields(t);
        let start_time = int_at(m, Field::VelocityStartTime, 0);
        let multiplier = number_at(m, Field::VelocityMultiplier, Num::Int(0));
        if !is_record(t) {
            Err(Field::SliderVelocities)
        } else if start_time is Err {
            Err(start_time->Err_0)
        } else if multiplier is Err {
            Err(multiplier->Err_0)
        } else {
            Ok(
                ScrollVelocityView {
                    start_time: start_time->Ok_0,
                    multiplier: multiplier->Ok_0,
                },
            )
        }
    }

    open spec fn tree_of(x: ScrollVelocityView) -> Tree {
        Tree::Mapping(
            seq![
                int_entry(Field::VelocityStartTime, x.start_time as int),
                number_entry(Field::VelocityMultiplier, x.multiplier),
            ],
        )
    }

    proof fn lemma_round_trip(x: ScrollVelocityView) {
        let m = Self::tree_of(x)->Mapping_0;
        let ks = keys_of(velocity_fields());
        lemma_velocity_keys_distinct();
        lemma_lookup_distinct(m, ks, 0);
        lemma_lookup_distinct(m, ks, 1);
    }

    fn from_value(v: &serde_yaml::Value) -> (r: Result<Self, Field>) {
        if !(is_null(v) || is_mapping(v)) {
            return Err(Field::SliderVelocities);
        }
        let start_time = int_field(v, Field::VelocityStartTime, 0)?;
        let multiplier = number_field(v, Field::VelocityMultiplier, 0)?;
        Ok(ScrollVelocityInfo { start_time, multiplier })
    }

    fn to_value(&self) -> (v: serde_yaml::Value) {
        let mut out: Vec<(serde_yaml::Value, serde_yaml::Value)> = Vec::new();
        proof {
            assert(entry_trees(out@) =~= Seq::empty());
        }
        put_int(&mut out, Field::VelocityStartTime, self.start_time as i64);
        put_number(&mut out, Field::VelocityMultiplier, &self.multiplier);
        proof {
            Self::lemma_round_trip(self@);
            lemma_velocity_keys_distinct();
            assert(entry_trees(out@) =~= Self::tree_of(self@)->Mapping_0);
            lemma_distinct_text_keys(entry_trees(out@), keys_of(velocity_fields()));
        }
        finish(out)
    }
}

impl Entry for HitObjectInfo {
    open spec fn of_tree(t: Tree) -> Result<HitObjectView, Field> {
        let m = fields(t);
        let start_time = int_at(m, Field::NoteStartTime, 0);
        let lane = int_at(m, Field::NoteLane, 1);
        let end_time = int_at(m, Field::NoteEndTime, 0);
        let hit_sound = byte_at(m, Field::NoteHitSound, 0);
        let key_sounds = list_at::<KeySoundInfo>(m, Field::NoteKeySounds);
        let editor_layer = int_at(m, Field::NoteEditorLayer, 0);
        if !is_record(t) {
            Err(Field::HitObjects)
        } else if start_time is Err {
            Err(start_time->Err_0)
        } else if lane is Err {
            Err(lane->Err_0)
        } else if end_time is Err {
            Err(end_time->Err_0)
        } else if hit_sound is Err {
            Err(hit_sound->Err_0)
        } else if key_sounds is Err {
            Err(key_sounds->Err_0)
        } else if editor_layer is Err {
            Err(editor_layer->Err_0)
        } else {
            Ok(
                HitObjectView {
                    start_time: start_time->Ok_0,
                    lane: lane->Ok_0,
                    end_time: end_time->Ok_0,
                    hit_sound: hit_sound->Ok_0,
                    key_sounds: key_sounds->Ok_0,
                    editor_layer: editor_layer->Ok_0,
                },
            )
        }
    }

    open spec fn tree_of(x: HitObjectView) -> Tree {
        Tree::Mapping(
            seq![
                int_entry(Field::NoteStartTime, x.start_time as int),
                int_entry(Field::NoteLane, x.lane as int),
                int_entry(Field::NoteEndTime, x.end_time as int),
                int_entry(Field::NoteHitSound, x.hit_sound as int),
                list_entry(Field::NoteKeySounds, trees_of::<KeySoundInfo>(x.key_sounds)),
                int_entry(Field::NoteEditorLayer, x.editor_layer as int),
            ],
        )
    }

    proof fn lemma_round_trip(x: HitObjectView) {
        let m = Self::tree_of(x)->Mapping_0;
        let ks = keys_of(note_fields());
        lemma_note_keys_distinct();
        lemma_lookup_distinct(m, ks, 0);
        lemma_lookup_distinct(m, ks, 1);
        lemma_lookup_distinct(m, ks, 2);
        lemma_lookup_distinct(m, ks, 3);
        lemma_lookup_distinct(m, ks, 4);
        lemma_lookup_distinct(m, ks, 5);
        lemma_entries_round_trip::<KeySoundInfo>(x.key_sounds);
    }

    fn from_value(v: &serde_yaml::Value) -> (r: Result<Self, Field>) {
        if !(is_null(v) || is_mapping(v)) {
            return Err(Field::HitObjects);
        }
        let start_time = int_field(v, Field::NoteStartTime, 0)?;
        let lane = int_field(v, Field::NoteLane, 1)?;
        let end_time = int_field(v, Field::NoteEndTime, 0)?;
        let hit_sound = byte_field(v, Field::NoteHitSound, 0)?;
        let key_sounds = list_field::<KeySoundInfo>(v, Field::NoteKeySounds)?;
        let editor_layer = int_field(v, Field::NoteEditorLayer, 0)?;
        Ok(HitObjectInfo { start_time, lane, end_time, hit_sound, key_sounds, editor_layer })
    }

    fn to_value(&self) -> (v: serde_yaml::Value) {
        let mut out: Vec<(serde_yaml::Value, serde_yaml::Value)> = Vec::new();
        proof {
            assert(entry_trees(out@) =~= Seq::empty());
        }
        put_int(&mut out, Field::NoteStartTime, self.start_time as i64);
        put_int(&mut out, Field::NoteLane, self.lane as i64);
        put_int(&mut out, Field::NoteEndTime, self.end_time as i64);
        put_int(&mut out, Field::NoteHitSound, self.hit_sound as i64);
        put(&mut out, Field::NoteKeySounds, list_value::<KeySoundInfo>(&self.key_sounds));
        put_int(&mut out, Field::NoteEditorLayer, self.editor_layer as i64);
        proof {
            Self::lemma_round_trip(self@);
            lemma_note_keys_distinct();
            assert(entry_trees(out@) =~= Self::tree_of(self@)->Mapping_0);
            lemma_distinct_text_keys(entry_trees(out@), keys_of(note_fields()));
        }
        finish(out)
    }
}

impl Entry for KeySoundInfo {
    open spec fn of_tree(t: Tree) -> Result<KeySoundInfo, Field> {
        let m = fields(t);
        let sample = int_at(m, Field::KeySoundSample, 0);
        let volume = int_at(m, Field::KeySoundVolume, 100);
        if !is_record(t) {
            Err(Field::NoteKeySounds)
        } else if sample is Err {
            Err(sample->Err_0)
        } else if volume is Err {
            Err(volume->Err_0)
        } else {
            Ok(
                KeySoundInfo {
                    sample: sample->Ok_0,
                    volume: volume->Ok_0,
                },
            )
        }
    }

    open spec fn tree_of(x: KeySoundInfo) -> Tree {
        Tree::Mapping(
            seq![
                int_entry(Field::KeySoundSample, x.sample as int),
                int_entry(Field::KeySoundVolume, x.volume as int),
            ],
        )
    }

    proof fn lemma_round_trip(x: KeySoundInfo) {
        let m = Self::tree_of(x)->Mapping_0;
        let ks = keys_of(key_sound_fields());
        lemma_key_sound_keys_distinct();
        lemma_lookup_distinct(m, ks, 0);
        lemma_lookup_distinct(m, ks, 1);
    }

    fn from_value(v: &serde_yaml::Value) -> (r: Result<Self, Field>) {
        if !(is_null(v) || is_mapping(v)) {
            return Err(Field::NoteKeySounds);
        }
        let sample = int_field(v, Field::KeySoundSample, 0)?;
        let volume = int_field(v, Field::KeySoundVolume, 100)?;
        Ok(KeySoundInfo { sample, volume })
    }

    fn to_value(&self) -> (v: serde_yaml::Value) {
        let mut out: Vec<(serde_yaml::Value, serde_yaml::Value)> = Vec::new();
        proof {
            assert(entry_trees(out@) =~= Seq::empty());
        }
        put_int(&mut out, Field::KeySoundSample, self.sample as i64);
        put_int(&mut out, Field::KeySoundVolume, self.volume as i64);
        proof {
            Self::lemma_round_trip(self@);
            lemma_key_sound_keys_distinct();
            assert(entry_trees(out@) =~= Self::tree_of(self@)->Mapping_0);
            lemma_distinct_text_keys(entry_trees(out@), keys_of(key_sound_fields()));
        }
        finish(out)
    }
}

} // verus!
