//! The two directions between a chart and a document, and between a chart
//! and the text of a document.

use vstd::prelude::*;
use vstd::string::StringSliceAdditionalSpecFns;
use crate::chart::{
    CustomAudioSampleInfo, CustomAudioSampleView, EditorLayerInfo, EditorLayerView, HitObjectInfo,
    HitObjectView, Qua, QuaView, ScrollVelocityInfo, ScrollVelocityView, SoundEffectInfo,
    SoundEffectView, TimingPointInfo, TimingPointView,
};
use crate::entry::{
    entries_of, lemma_entries_round_trip, list_at, list_field, list_value, trees_of,
};
use crate::error::QuaError;
use crate::field::{chart_fields, keys_of, lemma_chart_keys_distinct, Field};
use crate::mode::GameMode;
use crate::read::{
    bool_at, bool_field, fields, int_at, int_field, is_record, mode_at, mode_field, number_at,
    number_field, text_at, text_field,
};
use crate::tree::{
    lemma_distinct_text_keys, lemma_lookup_distinct, lemma_lookup_empty, lemma_lookup_insert,
    lookup, Num, Tree,
};
use crate::write::{
    bool_entry, entry_trees, finish, int_entry, list_entry, number_entry, put,
    put_bool, put_int, put_mode, put_number, put_text, text_entry,
};
use crate::yaml::{
    emit, is_mapping, is_null, parse, value_tree, yaml_document, yaml_text,
};

verus! {

/// The chart that a document holds: each field as the document has it, or by
/// default where the document has none. Keys that the schema does not have
/// are passed over. The error names the first field, in the order of the
/// schema, that holds what the format does not take; where the document is
/// neither a mapping nor empty, it names the document.
pub open spec fn chart_of_tree(t: Tree) -> Result<QuaView, Field> {
    let m = fields(t);
    let audio_file = text_at(m, Field::AudioFile, Seq::empty());
    let song_preview_time = int_at(m, Field::SongPreviewTime, 0);
    let background_file = text_at(m, Field::BackgroundFile, Seq::empty());
    let banner_file = text_at(m, Field::BannerFile, Seq::empty());
    let map_id = int_at(m, Field::MapId, -1i32);
    let map_set_id = int_at(m, Field::MapSetId, -1i32);
    let game_mode = mode_at(m, Field::Mode, GameMode::Keys4);
    let title = text_at(m, Field::Title, Seq::empty());
    let artist = text_at(m, Field::Artist, Seq::empty());
    let source = text_at(m, Field::Source, Seq::empty());
    let tags = text_at(m, Field::Tags, Seq::empty());
    let creator = text_at(m, Field::Creator, Seq::empty());
    let difficulty_name = text_at(m, Field::DifficultyName, Seq::empty());
    let description = text_at(m, Field::Description, Seq::empty());
    let genre = text_at(m, Field::Genre, Seq::empty());
    let bpm_does_not_affect_scroll_velocity = bool_at(m, Field::BpmDoesNotAffectScrollVelocity, false);
    let initial_scroll_velocity = number_at(m, Field::InitialScrollVelocity, Num::Int(1));
    let has_scratch_key = bool_at(m, Field::HasScratchKey, false);
    let editor_layers = list_at::<EditorLayerInfo>(m, Field::EditorLayers);
    let custom_audio_samples = list_at::<CustomAudioSampleInfo>(m, Field::CustomAudioSamples);
    let sound_effects = list_at::<SoundEffectInfo>(m, Field::SoundEffects);
    let timing_points = list_at::<TimingPointInfo>(m, Field::TimingPoints);
    let slider_velocities = list_at::<ScrollVelocityInfo>(m, Field::SliderVelocities);
    let hit_objects = list_at::<HitObjectInfo>(m, Field::HitObjects);
    if !is_record(t) {
        Err(Field::Document)
    } else if audio_file is Err {
        Err(audio_file->Err_0)
    } else if song_preview_time is Err {
        Err(song_preview_time->Err_0)
    } else if background_file is Err {
        Err(background_file->Err_0)
    } else if banner_file is Err {
        Err(banner_file->Err_0)
    } else if map_id is Err {
        Err(map_id->Err_0)
    } else if map_set_id is Err {
        Err(map_set_id->Err_0)
    } else if game_mode is Err {
        Err(game_mode->Err_0)
    } else if title is Err {
        Err(title->Err_0)
    } else if artist is Err {
        Err(artist->Err_0)
    } else if source is Err {
        Err(source->Err_0)
    } else if tags is Err {
        Err(tags->Err_0)
    } else if creator is Err {
        Err(creator->Err_0)
    } else if difficulty_name is Err {
        Err(difficulty_name->Err_0)
    } else if description is Err {
        Err(description->Err_0)
    } else if genre is Err {
        Err(genre->Err_0)
    } else if bpm_does_not_affect_scroll_velocity is Err {
        Err(bpm_does_not_affect_scroll_velocity->Err_0)
    } else if initial_scroll_velocity is Err {
        Err(initial_scroll_velocity->Err_0)
    } else if has_scratch_key is Err {
        Err(has_scratch_key->Err_0)
    } else if editor_layers is Err {
        Err(editor_layers->Err_0)
    } else if custom_audio_samples is Err {
        Err(custom_audio_samples->Err_0)
    } else if sound_effects is Err {
        Err(sound_effects->Err_0)
    } else if timing_points is Err {
        Err(timing_points->Err_0)
    } else if slider_velocities is Err {
        Err(slider_velocities->Err_0)
    } else if hit_objects is Err {
        Err(hit_objects->Err_0)
    } else {
        Ok(
            QuaView {
                audio_file: audio_file->Ok_0,
                song_preview_time: song_preview_time->Ok_0,
                background_file: background_file->Ok_0,
                banner_file: banner_file->Ok_0,
                map_id: map_id->Ok_0,
                map_set_id: map_set_id->Ok_0,
                game_mode: game_mode->Ok_0,
                title: title->Ok_0,
                artist: artist->Ok_0,
                source: source->Ok_0,
                tags: tags->Ok_0,
                creator: creator->Ok_0,
                difficulty_name: difficulty_name->Ok_0,
                description: description->Ok_0,
                genre: genre->Ok_0,
                bpm_does_not_affect_scroll_velocity: bpm_does_not_affect_scroll_velocity->Ok_0,
                initial_scroll_velocity: initial_scroll_velocity->Ok_0,
                has_scratch_key: has_scratch_key->Ok_0,
                editor_layers: editor_layers->Ok_0,
                custom_audio_samples: custom_audio_samples->Ok_0,
                sound_effects: sound_effects->Ok_0,
                timing_points: timing_points->Ok_0,
                slider_velocities: slider_velocities->Ok_0,
                hit_objects: hit_objects->Ok_0,
            },
        )
    }
}

/// The document that stands for a chart: one mapping with every field, in the
/// order of the schema, whether or not the field has its default.
pub open spec fn tree_of_chart(c: QuaView) -> Tree {
    Tree::Mapping(
        seq![
            text_entry(Field::AudioFile, c.audio_file),
            int_entry(Field::SongPreviewTime, c.song_preview_time as int),
            text_entry(Field::BackgroundFile, c.background_file),
            text_entry(Field::BannerFile, c.banner_file),
            int_entry(Field::MapId, c.map_id as int),
            int_entry(Field::MapSetId, c.map_set_id as int),
            int_entry(Field::Mode, c.game_mode.code()),
            text_entry(Field::Title, c.title),
            text_entry(Field::Artist, c.artist),
            text_entry(Field::Source, c.source),
            text_entry(Field::Tags, c.tags),
            text_entry(Field::Creator, c.creator),
            text_entry(Field::DifficultyName, c.difficulty_name),
            text_entry(Field::Description, c.description),
            text_entry(Field::Genre, c.genre),
            bool_entry(Field::BpmDoesNotAffectScrollVelocity, c.bpm_does_not_affect_scroll_velocity),
            number_entry(Field::InitialScrollVelocity, c.initial_scroll_velocity),
            bool_entry(Field::HasScratchKey, c.has_scratch_key),
            list_entry(Field::EditorLayers, trees_of::<EditorLayerInfo>(c.editor_layers)),
            list_entry(Field::CustomAudioSamples, trees_of::<CustomAudioSampleInfo>(c.custom_audio_samples)),
            list_entry(Field::SoundEffects, trees_of::<SoundEffectInfo>(c.sound_effects)),
            list_entry(Field::TimingPoints, trees_of::<TimingPointInfo>(c.timing_points)),
            list_entry(Field::SliderVelocities, trees_of::<ScrollVelocityInfo>(c.slider_velocities)),
            list_entry(Field::HitObjects, trees_of::<HitObjectInfo>(c.hit_objects)),
        ],
    )
}

/// Whether the outcome of reading is the one that the format gives.
pub open spec fn reads_as(r: Result<Qua, QuaError>, want: Result<QuaView, Field>) -> bool {
    match want {
        Ok(c) => r matches Ok(q) && q@ == c,
        Err(f) => r matches Err(QuaError::FieldError(g)) && g == f,
    }
}

/// Reads the fields of a chart.
fn read_chart(v: &serde_yaml::Value) -> (r: Result<Qua, Field>)
    ensures
        match chart_of_tree(value_tree(*v)) {
            Ok(c) => r matches Ok(q) && q@ == c,
            Err(f) => r matches Err(g) && g == f,
        },
{
    proof {
        reveal_strlit("");
        assert(""@ =~= Seq::<char>::empty());
    }
    if !(is_null(v) || is_mapping(v)) {
        return Err(Field::Document);
    }
    let audio_file = text_field(v, Field::AudioFile, "")?;
    let song_preview_time = int_field(v, Field::SongPreviewTime, 0)?;
    let background_file = text_field(v, Field::BackgroundFile, "")?;
    let banner_file = text_field(v, Field::BannerFile, "")?;
    let map_id = int_field(v, Field::MapId, -1)?;
    let map_set_id = int_field(v, Field::MapSetId, -1)?;
    let game_mode = mode_field(v, Field::Mode, GameMode::Keys4)?;
    let title = text_field(v, Field::Title, "")?;
    let artist = text_field(v, Field::Artist, "")?;
    let source = text_field(v, Field::Source, "")?;
    let tags = text_field(v, Field::Tags, "")?;
    let creator = text_field(v, Field::Creator, "")?;
    let difficulty_name = text_field(v, Field::DifficultyName, "")?;
    let description = text_field(v, Field::Description, "")?;
    let genre = text_field(v, Field::Genre, "")?;
    let bpm_does_not_affect_scroll_velocity = bool_field(v, Field::BpmDoesNotAffectScrollVelocity, false)?;
    let initial_scroll_velocity = number_field(v, Field::InitialScrollVelocity, 1)?;
    let has_scratch_key = bool_field(v, Field::HasScratchKey, false)?;
    let editor_layers = list_field::<EditorLayerInfo>(v, Field::EditorLayers)?;
    let custom_audio_samples = list_field::<CustomAudioSampleInfo>(v, Field::CustomAudioSamples)?;
    let sound_effects = list_field::<SoundEffectInfo>(v, Field::SoundEffects)?;
    let timing_points = list_field::<TimingPointInfo>(v, Field::TimingPoints)?;
    let slider_velocities = list_field::<ScrollVelocityInfo>(v, Field::SliderVelocities)?;
    let hit_objects = list_field::<HitObjectInfo>(v, Field::HitObjects)?;
    Ok(
        Qua {
            audio_file,
            song_preview_time,
            background_file,
            banner_file,
            map_id,
            map_set_id,
            game_mode,
            title,
            artist,
            source,
            tags,
            creator,
            difficulty_name,
            description,
            genre,
            bpm_does_not_affect_scroll_velocity,
            initial_scroll_velocity,
            has_scratch_key,
            editor_layers,
            custom_audio_samples,
            sound_effects,
            timing_points,
            slider_velocities,
            hit_objects,
        },
    )
}

/// Writes the fields of a chart.
fn write_chart(q: &Qua) -> (v: serde_yaml::Value)
    ensures
        value_tree(v) == tree_of_chart(q@),
{
    let mut out: Vec<(serde_yaml::Value, serde_yaml::Value)> = Vec::new();
    proof {
        assert(entry_trees(out@) =~= Seq::empty());
    }
    put_text(&mut out, Field::AudioFile, q.audio_file.as_str());
    put_int(&mut out, Field::SongPreviewTime, q.song_preview_time as i64);
    put_text(&mut out, Field::BackgroundFile, q.background_file.as_str());
    put_text(&mut out, Field::BannerFile, q.banner_file.as_str());
    put_int(&mut out, Field::MapId, q.map_id as i64);
    put_int(&mut out, Field::MapSetId, q.map_set_id as i64);
    put_mode(&mut out, Field::Mode, q.game_mode);
    put_text(&mut out, Field::Title, q.title.as_str());
    put_text(&mut out, Field::Artist, q.artist.as_str());
    put_text(&mut out, Field::Source, q.source.as_str());
    put_text(&mut out, Field::Tags, q.tags.as_str());
    put_text(&mut out, Field::Creator, q.creator.as_str());
    put_text(&mut out, Field::DifficultyName, q.difficulty_name.as_str());
    put_text(&mut out, Field::Description, q.description.as_str());
    put_text(&mut out, Field::Genre, q.genre.as_str());
    put_bool(&mut out, Field::BpmDoesNotAffectScrollVelocity, q.bpm_does_not_affect_scroll_velocity);
    put_number(&mut out, Field::InitialScrollVelocity, &q.initial_scroll_velocity);
    put_bool(&mut out, Field::HasScratchKey, q.has_scratch_key);
    put(&mut out, Field::EditorLayers, list_value::<EditorLayerInfo>(&q.editor_layers));
    put(&mut out, Field::CustomAudioSamples, list_value::<CustomAudioSampleInfo>(&q.custom_audio_samples));
    put(&mut out, Field::SoundEffects, list_value::<SoundEffectInfo>(&q.sound_effects));
    put(&mut out, Field::TimingPoints, list_value::<TimingPointInfo>(&q.timing_points));
    put(&mut out, Field::SliderVelocities, list_value::<ScrollVelocityInfo>(&q.slider_velocities));
    put(&mut out, Field::HitObjects, list_value::<HitObjectInfo>(&q.hit_objects));
    proof {
        lemma_chart_keys_distinct();
        assert(entry_trees(out@) =~= tree_of_chart(q@)->Mapping_0);
        lemma_distinct_text_keys(entry_trees(out@), keys_of(chart_fields()));
    }
    finish(out)
}

impl Qua {
    /// Reads a chart from a document.
    pub fn from_value(v: &serde_yaml::Value) -> (r: Result<Qua, QuaError>)
        ensures
            reads_as(r, chart_of_tree(value_tree(*v))),
    {
        match read_chart(v) {
            Ok(q) => Ok(q),
            Err(f) => Err(QuaError::FieldError(f)),
        }
    }

    /// Writes the chart as a document. Reading what was written yields the
    /// chart again.
    pub fn to_value(&self) -> (v: serde_yaml::Value)
        ensures
            value_tree(v) == tree_of_chart(self@),
            chart_of_tree(value_tree(v)) == Ok::<QuaView, Field>(self@),
    {
        proof {
            lemma_round_trip(self@);
        }
        write_chart(self)
    }

    /// Reads a chart from the text of a document, which is to read it from the
    /// bytes of the text. A text that is no document is an error of the
    /// syntax; a document is read as `from_value` reads it.
    pub fn from_str(s: &str) -> (r: Result<Qua, QuaError>)
        ensures
            match yaml_document(s.spec_bytes()) {
                Some(t) => reads_as(r, chart_of_tree(t)),
                None => r matches Err(QuaError::SerdeError(_)),
            },
    {
        Qua::from_slice(s.as_bytes())
    }

    /// Reads a chart from the bytes of a document. Bytes that are no document
    /// are an error of the syntax; a document is read as `from_value` reads
    /// it.
    pub fn from_slice(bytes: &[u8]) -> (r: Result<Qua, QuaError>)
        ensures
            match yaml_document(bytes@) {
                Some(t) => reads_as(r, chart_of_tree(t)),
                None => r matches Err(QuaError::SerdeError(_)),
            },
    {
        match parse(bytes) {
            Ok(v) => Qua::from_value(&v),
            Err(e) => Err(QuaError::SerdeError(e)),
        }
    }

    /// Writes the chart as the text of a document. Whether a text is written
    /// is for `serde_yaml` to say: its writer can fail on its own account, and
    /// such a failure is handed on.
    pub fn to_text(&self) -> (r: Result<String, QuaError>)
        ensures
            match yaml_text(tree_of_chart(self@)) {
                Some(s) => r matches Ok(x) && x@ == s,
                None => r matches Err(QuaError::SerdeError(_)),
            },
    {
        let v = self.to_value();
        match emit(&v) {
            Ok(s) => Ok(s),
            Err(e) => Err(QuaError::SerdeError(e)),
        }
    }
}

impl std::str::FromStr for Qua {
    type Err = QuaError;

    /// Reads a chart from the text of a document, as `Qua::from_str` does: a
    /// text whose bytes are no document is an error of the syntax, and a
    /// document is read as `from_value` reads it.
    fn from_str(s: &str) -> (r: Result<Self, QuaError>)
        ensures
            match yaml_document(s.spec_bytes()) {
                Some(t) => reads_as(r, chart_of_tree(t)),
                None => r matches Err(QuaError::SerdeError(_)),
            },
    {
        Qua::from_str(s)
    }
}

/// Reading the document that stands for a chart yields that chart.
pub proof fn lemma_round_trip(c: QuaView)
    ensures
        chart_of_tree(tree_of_chart(c)) == Ok::<QuaView, Field>(c),
{
    let m = tree_of_chart(c)->Mapping_0;
    let ks = keys_of(chart_fields());
    lemma_chart_keys_distinct();
    lemma_lookup_distinct(m, ks, 0);
    lemma_lookup_distinct(m, ks, 1);
    lemma_lookup_distinct(m, ks, 2);
    lemma_lookup_distinct(m, ks, 3);
    lemma_lookup_distinct(m, ks, 4);
    lemma_lookup_distinct(m, ks, 5);
    lemma_lookup_distinct(m, ks, 6);
    lemma_lookup_distinct(m, ks, 7);
    lemma_lookup_distinct(m, ks, 8);
    lemma_lookup_distinct(m, ks, 9);
    lemma_lookup_distinct(m, ks, 10);
    lemma_lookup_distinct(m, ks, 11);
    lemma_lookup_distinct(m, ks, 12);
    lemma_lookup_distinct(m, ks, 13);
    lemma_lookup_distinct(m, ks, 14);
    lemma_lookup_distinct(m, ks, 15);
    lemma_lookup_distinct(m, ks, 16);
    lemma_lookup_distinct(m, ks, 17);
    lemma_lookup_distinct(m, ks, 18);
    lemma_lookup_distinct(m, ks, 19);
    lemma_lookup_distinct(m, ks, 20);
    lemma_lookup_distinct(m, ks, 21);
    lemma_lookup_distinct(m, ks, 22);
    lemma_lookup_distinct(m, ks, 23);
    lemma_entries_round_trip::<EditorLayerInfo>(c.editor_layers);
    lemma_entries_round_trip::<CustomAudioSampleInfo>(c.custom_audio_samples);
    lemma_entries_round_trip::<SoundEffectInfo>(c.sound_effects);
    lemma_entries_round_trip::<TimingPointInfo>(c.timing_points);
    lemma_entries_round_trip::<ScrollVelocityInfo>(c.slider_velocities);
    lemma_entries_round_trip::<HitObjectInfo>(c.hit_objects);
}

/// An empty document, and a mapping without entries, hold the default chart.
pub proof fn lemma_empty_is_default()
    ensures
        chart_of_tree(Tree::Null) == Ok::<QuaView, Field>(QuaView::defaults()),
        chart_of_tree(Tree::Mapping(Seq::empty())) == Ok::<QuaView, Field>(QuaView::defaults()),
{
    assert forall|key: Seq<char>| lookup(Seq::empty(), key) is None by {
        lemma_lookup_empty(key);
    }
    assert(entries_of::<EditorLayerInfo>(Seq::empty()) == Ok::<Seq<EditorLayerView>, Field>(Seq::empty()));
    assert(entries_of::<CustomAudioSampleInfo>(Seq::empty()) == Ok::<Seq<CustomAudioSampleView>, Field>(Seq::empty()));
    assert(entries_of::<SoundEffectInfo>(Seq::empty()) == Ok::<Seq<SoundEffectView>, Field>(Seq::empty()));
    assert(entries_of::<TimingPointInfo>(Seq::empty()) == Ok::<Seq<TimingPointView>, Field>(Seq::empty()));
    assert(entries_of::<ScrollVelocityInfo>(Seq::empty()) == Ok::<Seq<ScrollVelocityView>, Field>(Seq::empty()));
    assert(entries_of::<HitObjectInfo>(Seq::empty()) == Ok::<Seq<HitObjectView>, Field>(Seq::empty()));
}

/// The document that stands for a chart has the keys of the schema, in the
/// order of the schema, and no others.
pub proof fn lemma_written_keys(c: QuaView)
    ensures
        tree_of_chart(c) matches Tree::Mapping(m) && m.len() == chart_fields().len() && forall|
            i: int,
        |
            0 <= i < m.len() ==> (#[trigger] m[i]).0 == Tree::Text(chart_fields()[i].key()),
{
}

/// Two mappings hold the same under the key of a field.
pub open spec fn agree_at(a: Seq<(Tree, Tree)>, b: Seq<(Tree, Tree)>, f: Field) -> bool {
    lookup(a, f.key()) == lookup(b, f.key())
}

/// Two mappings hold the same under every key of the schema.
pub open spec fn agree(a: Seq<(Tree, Tree)>, b: Seq<(Tree, Tree)>) -> bool {
    forall|j: int| 0 <= j < chart_fields().len() ==> agree_at(a, b, #[trigger] chart_fields()[j])
}

/// What a document holds as a chart depends only on what it holds under the
/// keys of the schema.
pub proof fn lemma_chart_by_fields(a: Seq<(Tree, Tree)>, b: Seq<(Tree, Tree)>)
    requires
        agree(a, b),
    ensures
        chart_of_tree(Tree::Mapping(a)) == chart_of_tree(Tree::Mapping(b)),
{
    let fs = chart_fields();
    assert(text_at(a, Field::AudioFile, Seq::empty()) == text_at(b, Field::AudioFile, Seq::empty())) by {
        assert(fs[0] == Field::AudioFile && agree_at(a, b, fs[0]));
    }
    assert(int_at(a, Field::SongPreviewTime, 0) == int_at(b, Field::SongPreviewTime, 0)) by {
        assert(fs[1] == Field::SongPreviewTime && agree_at(a, b, fs[1]));
    }
    assert(text_at(a, Field::BackgroundFile, Seq::empty()) == text_at(b, Field::BackgroundFile, Seq::empty())) by {
        assert(fs[2] == Field::BackgroundFile && agree_at(a, b, fs[2]));
    }
    assert(text_at(a, Field::BannerFile, Seq::empty()) == text_at(b, Field::BannerFile, Seq::empty())) by {
        assert(fs[3] == Field::BannerFile && agree_at(a, b, fs[3]));
    }
    assert(int_at(a, Field::MapId, -1i32) == int_at(b, Field::MapId, -1i32)) by {
        assert(fs[4] == Field::MapId && agree_at(a, b, fs[4]));
    }
    assert(int_at(a, Field::MapSetId, -1i32) == int_at(b, Field::MapSetId, -1i32)) by {
        assert(fs[5] == Field::MapSetId && agree_at(a, b, fs[5]));
    }
    assert(mode_at(a, Field::Mode, GameMode::Keys4) == mode_at(b, Field::Mode, GameMode::Keys4)) by {
        assert(fs[6] == Field::Mode && agree_at(a, b, fs[6]));
    }
    assert(text_at(a, Field::Title, Seq::empty()) == text_at(b, Field::Title, Seq::empty())) by {
        assert(fs[7] == Field::Title && agree_at(a, b, fs[7]));
    }
    assert(text_at(a, Field::Artist, Seq::empty()) == text_at(b, Field::Artist, Seq::empty())) by {
        assert(fs[8] == Field::Artist && agree_at(a, b, fs[8]));
    }
    assert(text_at(a, Field::Source, Seq::empty()) == text_at(b, Field::Source, Seq::empty())) by {
        assert(fs[9] == Field::Source && agree_at(a, b, fs[9]));
    }
    assert(text_at(a, Field::Tags, Seq::empty()) == text_at(b, Field::Tags, Seq::empty())) by {
        assert(fs[10] == Field::Tags && agree_at(a, b, fs[10]));
    }
    assert(text_at(a, Field::Creator, Seq::empty()) == text_at(b, Field::Creator, Seq::empty())) by {
        assert(fs[11] == Field::Creator && agree_at(a, b, fs[11]));
    }
    assert(text_at(a, Field::DifficultyName, Seq::empty()) == text_at(b, Field::DifficultyName, Seq::empty())) by {
        assert(fs[12] == Field::DifficultyName && agree_at(a, b, fs[12]));
    }
    assert(text_at(a, Field::Description, Seq::empty()) == text_at(b, Field::Description, Seq::empty())) by {
        assert(fs[13] == Field::Description && agree_at(a, b, fs[13]));
    }
    assert(text_at(a, Field::Genre, Seq::empty()) == text_at(b, Field::Genre, Seq::empty())) by {
        assert(fs[14] == Field::Genre && agree_at(a, b, fs[14]));
    }
    assert(bool_at(a, Field::BpmDoesNotAffectScrollVelocity, false) == bool_at(b, Field::BpmDoesNotAffectScrollVelocity, false)) by {
        assert(fs[15] == Field::BpmDoesNotAffectScrollVelocity && agree_at(a, b, fs[15]));
    }
    assert(number_at(a, Field::InitialScrollVelocity, Num::Int(1)) == number_at(b, Field::InitialScrollVelocity, Num::Int(1))) by {
        assert(fs[16] == Field::InitialScrollVelocity && agree_at(a, b, fs[16]));
    }
    assert(bool_at(a, Field::HasScratchKey, false) == bool_at(b, Field::HasScratchKey, false)) by {
        assert(fs[17] == Field::HasScratchKey && agree_at(a, b, fs[17]));
    }
    assert(list_at::<EditorLayerInfo>(a, Field::EditorLayers) == list_at::<EditorLayerInfo>(b, Field::EditorLayers)) by {
        assert(fs[18] == Field::EditorLayers && agree_at(a, b, fs[18]));
    }
    assert(list_at::<CustomAudioSampleInfo>(a, Field::CustomAudioSamples) == list_at::<CustomAudioSampleInfo>(b, Field::CustomAudioSamples)) by {
        assert(fs[19] == Field::CustomAudioSamples && agree_at(a, b, fs[19]));
    }
    assert(list_at::<SoundEffectInfo>(a, Field::SoundEffects) == list_at::<SoundEffectInfo>(b, Field::SoundEffects)) by {
        assert(fs[20] == Field::SoundEffects && agree_at(a, b, fs[20]));
    }
    assert(list_at::<TimingPointInfo>(a, Field::TimingPoints) == list_at::<TimingPointInfo>(b, Field::TimingPoints)) by {
        assert(fs[21] == Field::TimingPoints && agree_at(a, b, fs[21]));
    }
    assert(list_at::<ScrollVelocityInfo>(a, Field::SliderVelocities) == list_at::<ScrollVelocityInfo>(b, Field::SliderVelocities)) by {
        assert(fs[22] == Field::SliderVelocities && agree_at(a, b, fs[22]));
    }
    assert(list_at::<HitObjectInfo>(a, Field::HitObjects) == list_at::<HitObjectInfo>(b, Field::HitObjects)) by {
        assert(fs[23] == Field::HitObjects && agree_at(a, b, fs[23]));
    }
}

/// An entry whose key is none of the schema's, put anywhere among the entries
/// of a document, changes nothing of the chart that the document holds.
pub proof fn lemma_unknown_key_ignored(m: Seq<(Tree, Tree)>, i: int, e: (Tree, Tree))
    requires
        0 <= i <= m.len(),
        forall|j: int|
            0 <= j < chart_fields().len() ==> e.0 != Tree::Text((#[trigger] chart_fields()[j]).key()),
    ensures
        chart_of_tree(Tree::Mapping(m.insert(i, e))) == chart_of_tree(Tree::Mapping(m)),
{
    let fs = chart_fields();
    assert forall|j: int| 0 <= j < fs.len() implies agree_at(m.insert(i, e), m, #[trigger] fs[j]) by {
        lemma_lookup_insert(m, i, e, fs[j].key());
    }
    lemma_chart_by_fields(m.insert(i, e), m);
}

} // verus!
