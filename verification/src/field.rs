//! The fields of the format, each with the key under which a document holds
//! it, and the order in which each kind of entry lists its fields.

use vstd::prelude::*;
use crate::tree::distinct_keys;

verus! {

/// A place in a document: the document itself, or one field of one kind of
/// entry. An error names the place where a document does not fit the format.
#[derive(Clone, Copy, Debug, PartialEq, Eq, Structural)]
pub enum Field {
    /// The document as a whole, which is to be one mapping.
    Document,
    // The fields of a chart.
    AudioFile,
    SongPreviewTime,
    BackgroundFile,
    BannerFile,
    MapId,
    MapSetId,
    Mode,
    Title,
    Artist,
    Source,
    Tags,
    Creator,
    DifficultyName,
    Description,
    Genre,
    BpmDoesNotAffectScrollVelocity,
    InitialScrollVelocity,
    HasScratchKey,
    EditorLayers,
    CustomAudioSamples,
    SoundEffects,
    TimingPoints,
    SliderVelocities,
    HitObjects,
    // The fields of an editor layer.
    LayerName,
    LayerHidden,
    LayerColorRgb,
    // The fields of a custom audio sample.
    SamplePath,
    SampleUnaffectedByRate,
    // The fields of a sound effect.
    EffectStartTime,
    EffectSample,
    EffectVolume,
    // The fields of a timing point.
    TimingStartTime,
    TimingBpm,
    TimingSignature,
    TimingHidden,
    // The fields of a scroll velocity.
    VelocityStartTime,
    VelocityMultiplier,
    // The fields of a hit object.
    NoteStartTime,
    NoteLane,
    NoteEndTime,
    NoteHitSound,
    NoteKeySounds,
    NoteEditorLayer,
    // The fields of a key sound.
    KeySoundSample,
    KeySoundVolume,
}

impl Field {
    /// The key of the field in its mapping: each word of the field's name with
    /// a capital, and nothing between the words. The document itself has no
    /// key.
    pub open spec fn key(self) -> Seq<char> {
        match self {
            Field::Document => ""@,
            Field::AudioFile => "AudioFile"@,
            Field::SongPreviewTime => "SongPreviewTime"@,
            Field::BackgroundFile => "BackgroundFile"@,
            Field::BannerFile => "BannerFile"@,
            Field::MapId => "MapId"@,
            Field::MapSetId => "MapSetId"@,
            Field::Mode => "Mode"@,
            Field::Title => "Title"@,
            Field::Artist => "Artist"@,
            Field::Source => "Source"@,
            Field::Tags => "Tags"@,
            Field::Creator => "Creator"@,
            Field::DifficultyName => "DifficultyName"@,
            Field::Description => "Description"@,
            Field::Genre => "Genre"@,
            Field::BpmDoesNotAffectScrollVelocity => "BpmDoesNotAffectScrollVelocity"@,
            Field::InitialScrollVelocity => "InitialScrollVelocity"@,
            Field::HasScratchKey => "HasScratchKey"@,
            Field::EditorLayers => "EditorLayers"@,
            Field::CustomAudioSamples => "CustomAudioSamples"@,
            Field::SoundEffects => "SoundEffects"@,
            Field::TimingPoints => "TimingPoints"@,
            Field::SliderVelocities => "SliderVelocities"@,
            Field::HitObjects => "HitObjects"@,
            Field::LayerName => "Name"@,
            Field::LayerHidden => "Hidden"@,
            Field::LayerColorRgb => "ColorRgb"@,
            Field::SamplePath => "Path"@,
            Field::SampleUnaffectedByRate => "UnaffectedByRate"@,
            Field::EffectStartTime => "StartTime"@,
            Field::EffectSample => "Sample"@,
            Field::EffectVolume => "Volume"@,
            Field::TimingStartTime => "StartTime"@,
            Field::TimingBpm => "Bpm"@,
            Field::TimingSignature => "Signature"@,
            Field::TimingHidden => "Hidden"@,
            Field::VelocityStartTime => "StartTime"@,
            Field::VelocityMultiplier => "Multiplier"@,
            Field::NoteStartTime => "StartTime"@,
            Field::NoteLane => "Lane"@,
            Field::NoteEndTime => "EndTime"@,
            Field::NoteHitSound => "HitSound"@,
            Field::NoteKeySounds => "KeySounds"@,
            Field::NoteEditorLayer => "EditorLayer"@,
            Field::KeySoundSample => "Sample"@,
            Field::KeySoundVolume => "Volume"@,
        }
    }

    /// The key of the field, as a document writes it.
    pub fn name(self) -> (r: &'static str)
        ensures
            r@ == self.key(),
    {
        match self {
            Field::Document => "",
            Field::AudioFile => "AudioFile",
            Field::SongPreviewTime => "SongPreviewTime",
            Field::BackgroundFile => "BackgroundFile",
            Field::BannerFile => "BannerFile",
            Field::MapId => "MapId",
            Field::MapSetId => "MapSetId",
            Field::Mode => "Mode",
            Field::Title => "Title",
            Field::Artist => "Artist",
            Field::Source => "Source",
            Field::Tags => "Tags",
            Field::Creator => "Creator",
            Field::DifficultyName => "DifficultyName",
            Field::Description => "Description",
            Field::Genre => "Genre",
            Field::BpmDoesNotAffectScrollVelocity => "BpmDoesNotAffectScrollVelocity",
            Field::InitialScrollVelocity => "InitialScrollVelocity",
            Field::HasScratchKey => "HasScratchKey",
            Field::EditorLayers => "EditorLayers",
            Field::CustomAudioSamples => "CustomAudioSamples",
            Field::SoundEffects => "SoundEffects",
            Field::TimingPoints => "TimingPoints",
            Field::SliderVelocities => "SliderVelocities",
            Field::HitObjects => "HitObjects",
            Field::LayerName => "Name",
            Field::LayerHidden => "Hidden",
            Field::LayerColorRgb => "ColorRgb",
            Field::SamplePath => "Path",
            Field::SampleUnaffectedByRate => "UnaffectedByRate",
            Field::EffectStartTime => "StartTime",
            Field::EffectSample => "Sample",
            Field::EffectVolume => "Volume",
            Field::TimingStartTime => "StartTime",
            Field::TimingBpm => "Bpm",
            Field::TimingSignature => "Signature",
            Field::TimingHidden => "Hidden",
            Field::VelocityStartTime => "StartTime",
            Field::VelocityMultiplier => "Multiplier",
            Field::NoteStartTime => "StartTime",
            Field::NoteLane => "Lane",
            Field::NoteEndTime => "EndTime",
            Field::NoteHitSound => "HitSound",
            Field::NoteKeySounds => "KeySounds",
            Field::NoteEditorLayer => "EditorLayer",
            Field::KeySoundSample => "Sample",
            Field::KeySoundVolume => "Volume",
        }
    }
}

/// The keys of fields, in their order.
pub open spec fn keys_of(fs: Seq<Field>) -> Seq<Seq<char>> {
    Seq::new(fs.len(), |i: int| fs[i].key())
}

/// The fields of a chart, in the order of the schema.
pub open spec fn chart_fields() -> Seq<Field> {
    seq![
        Field::AudioFile,
        Field::SongPreviewTime,
        Field::BackgroundFile,
        Field::BannerFile,
        Field::MapId,
        Field::MapSetId,
        Field::Mode,
        Field::Title,
        Field::Artist,
        Field::Source,
        Field::Tags,
        Field::Creator,
        Field::DifficultyName,
        Field::Description,
        Field::Genre,
        Field::BpmDoesNotAffectScrollVelocity,
        Field::InitialScrollVelocity,
        Field::HasScratchKey,
        Field::EditorLayers,
        Field::CustomAudioSamples,
        Field::SoundEffects,
        Field::TimingPoints,
        Field::SliderVelocities,
        Field::HitObjects,
    ]
}

/// The fields of an editor layer, in the order of the schema.
pub open spec fn layer_fields() -> Seq<Field> {
    seq![
        Field::LayerName,
        Field::LayerHidden,
        Field::LayerColorRgb,
    ]
}

/// The fields of a custom audio sample, in the order of the schema.
pub open spec fn sample_fields() -> Seq<Field> {
    seq![
        Field::SamplePath,
        Field::SampleUnaffectedByRate,
    ]
}

/// The fields of a sound effect, in the order of the schema.
pub open spec fn effect_fields() -> Seq<Field> {
    seq![
        Field::EffectStartTime,
        Field::EffectSample,
        Field::EffectVolume,
    ]
}

/// The fields of a timing point, in the order of the schema.
pub open spec fn timing_fields() -> Seq<Field> {
    seq![
        Field::TimingStartTime,
        Field::TimingBpm,
        Field::TimingSignature,
        Field::TimingHidden,
    ]
}

/// The fields of a scroll velocity, in the order of the schema.
pub open spec fn velocity_fields() -> Seq<Field> {
    seq![
        Field::VelocityStartTime,
        Field::VelocityMultiplier,
    ]
}

/// The fields of a hit object, in the order of the schema.
pub open spec fn note_fields() -> Seq<Field> {
    seq![
        Field::NoteStartTime,
        Field::NoteLane,
        Field::NoteEndTime,
        Field::NoteHitSound,
        Field::NoteKeySounds,
        Field::NoteEditorLayer,
    ]
}

/// The fields of a key sound, in the order of the schema.
pub open spec fn key_sound_fields() -> Seq<Field> {
    seq![
        Field::KeySoundSample,
        Field::KeySoundVolume,
    ]
}

/// No two fields of a chart have the same key.
pub proof fn lemma_chart_keys_distinct()
    ensures
        distinct_keys(keys_of(chart_fields())),
{
    reveal_strlit("AudioFile");
    reveal_strlit("SongPreviewTime");
    reveal_strlit("BackgroundFile");
    reveal_strlit("BannerFile");
    reveal_strlit("MapId");
    reveal_strlit("MapSetId");
    reveal_strlit("Mode");
    reveal_strlit("Title");
    reveal_strlit("Artist");
    reveal_strlit("Source");
    reveal_strlit("Tags");
    reveal_strlit("Creator");
    reveal_strlit("DifficultyName");
    reveal_strlit("Description");
    reveal_strlit("Genre");
    reveal_strlit("BpmDoesNotAffectScrollVelocity");
    reveal_strlit("InitialScrollVelocity");
    reveal_strlit("HasScratchKey");
    reveal_strlit("EditorLayers");
    reveal_strlit("CustomAudioSamples");
    reveal_strlit("SoundEffects");
    reveal_strlit("TimingPoints");
    reveal_strlit("SliderVelocities");
    reveal_strlit("HitObjects");
    let ks = keys_of(chart_fields());
    assert(ks[0].len() == 9 && ks[0][0] == 'A' && ks[0][1] == 'u');
    assert(ks[1].len() == 15 && ks[1][0] == 'S' && ks[1][1] == 'o');
    assert(ks[2].len() == 14 && ks[2][0] == 'B' && ks[2][1] == 'a');
    assert(ks[3].len() == 10 && ks[3][0] == 'B' && ks[3][1] == 'a');
    assert(ks[4].len() == 5 && ks[4][0] == 'M' && ks[4][1] == 'a');
    assert(ks[5].len() == 8 && ks[5][0] == 'M' && ks[5][1] == 'a');
    assert(ks[6].len() == 4 && ks[6][0] == 'M' && ks[6][1] == 'o');
    assert(ks[7].len() == 5 && ks[7][0] == 'T' && ks[7][1] == 'i');
    assert(ks[8].len() == 6 && ks[8][0] == 'A' && ks[8][1] == 'r');
    assert(ks[9].len() == 6 && ks[9][0] == 'S' && ks[9][1] == 'o');
    assert(ks[10].len() == 4 && ks[10][0] == 'T' && ks[10][1] == 'a');
    assert(ks[11].len() == 7 && ks[11][0] == 'C' && ks[11][1] == 'r');
    assert(ks[12].len() == 14 && ks[12][0] == 'D' && ks[12][1] == 'i');
    assert(ks[13].len() == 11 && ks[13][0] == 'D' && ks[13][1] == 'e');
    assert(ks[14].len() == 5 && ks[14][0] == 'G' && ks[14][1] == 'e');
    assert(ks[15].len() == 30 && ks[15][0] == 'B' && ks[15][1] == 'p');
    assert(ks[16].len() == 21 && ks[16][0] == 'I' && ks[16][1] == 'n');
    assert(ks[17].len() == 13 && ks[17][0] == 'H' && ks[17][1] == 'a');
    assert(ks[18].len() == 12 && ks[18][0] == 'E' && ks[18][1] == 'd');
    assert(ks[19].len() == 18 && ks[19][0] == 'C' && ks[19][1] == 'u');
    assert(ks[20].len() == 12 && ks[20][0] == 'S' && ks[20][1] == 'o');
    assert(ks[21].len() == 12 && ks[21][0] == 'T' && ks[21][1] == 'i');
    assert(ks[22].len() == 16 && ks[22][0] == 'S' && ks[22][1] == 'l');
    assert(ks[23].len() == 10 && ks[23][0] == 'H' && ks[23][1] == 'i');
}

/// No two fields of an editor layer have the same key.
pub proof fn lemma_layer_keys_distinct()
    ensures
        distinct_keys(keys_of(layer_fields())),
{
    reveal_strlit("Name");
    reveal_strlit("Hidden");
    reveal_strlit("ColorRgb");
    let ks = keys_of(layer_fields());
    assert(ks[0].len() == 4 && ks[0][0] == 'N' && ks[0][1] == 'a');
    assert(ks[1].len() == 6 && ks[1][0] == 'H' && ks[1][1] == 'i');
    assert(ks[2].len() == 8 && ks[2][0] == 'C' && ks[2][1] == 'o');
}

/// No two fields of a custom audio sample have the same key.
pub proof fn lemma_sample_keys_distinct()
    ensures
        distinct_keys(keys_of(sample_fields())),
{
    reveal_strlit("Path");
    reveal_strlit("UnaffectedByRate");
    let ks = keys_of(sample_fields());
    assert(ks[0].len() == 4 && ks[0][0] == 'P' && ks[0][1] == 'a');
    assert(ks[1].len() == 16 && ks[1][0] == 'U' && ks[1][1] == 'n');
}

/// No two fields of a sound effect have the same key.
pub proof fn lemma_effect_keys_distinct()
    ensures
        distinct_keys(keys_of(effect_fields())),
{
    reveal_strlit("StartTime");
    reveal_strlit("Sample");
    reveal_strlit("Volume");
    let ks = keys_of(effect_fields());
    assert(ks[0].len() == 9 && ks[0][0] == 'S' && ks[0][1] == 't');
    assert(ks[1].len() == 6 && ks[1][0] == 'S' && ks[1][1] == 'a');
    assert(ks[2].len() == 6 && ks[2][0] == 'V' && ks[2][1] == 'o');
}

/// No two fields of a timing point have the same key.
pub proof fn lemma_timing_keys_distinct()
    ensures
        distinct_keys(keys_of(timing_fields())),
{
    reveal_strlit("StartTime");
    reveal_strlit("Bpm");
    reveal_strlit("Signature");
    reveal_strlit("Hidden");
    let ks = keys_of(timing_fields());
    assert(ks[0].len() == 9 && ks[0][0] == 'S' && ks[0][1] == 't');
    assert(ks[1].len() == 3 && ks[1][0] == 'B' && ks[1][1] == 'p');
    assert(ks[2].len() == 9 && ks[2][0] == 'S' && ks[2][1] == 'i');
    assert(ks[3].len() == 6 && ks[3][0] == 'H' && ks[3][1] == 'i');
}

/// No two fields of a scroll velocity have the same key.
pub proof fn lemma_velocity_keys_distinct()
    ensures
        distinct_keys(keys_of(velocity_fields())),
{
    reveal_strlit("StartTime");
    reveal_strlit("Multiplier");
    let ks = keys_of(velocity_fields());
    assert(ks[0].len() == 9 && ks[0][0] == 'S' && ks[0][1] == 't');
    assert(ks[1].len() == 10 && ks[1][0] == 'M' && ks[1][1] == 'u');
}

/// No two fields of a hit object have the same key.
pub proof fn lemma_note_keys_distinct()
    ensures
        distinct_keys(keys_of(note_fields())),
{
    reveal_strlit("StartTime");
    reveal_strlit("Lane");
    reveal_strlit("EndTime");
    reveal_strlit("HitSound");
    reveal_strlit("KeySounds");
    reveal_strlit("EditorLayer");
    let ks = keys_of(note_fields());
    assert(ks[0].len() == 9 && ks[0][0] == 'S' && ks[0][1] == 't');
    assert(ks[1].len() == 4 && ks[1][0] == 'L' && ks[1][1] == 'a');
    assert(ks[2].len() == 7 && ks[2][0] == 'E' && ks[2][1] == 'n');
    assert(ks[3].len() == 8 && ks[3][0] == 'H' && ks[3][1] == 'i');
    assert(ks[4].len() == 9 && ks[4][0] == 'K' && ks[4][1] == 'e');
    assert(ks[5].len() == 11 && ks[5][0] == 'E' && ks[5][1] == 'd');
}

/// No two fields of a key sound have the same key.
pub proof fn lemma_key_sound_keys_distinct()
    ensures
        distinct_keys(keys_of(key_sound_fields())),
{
    reveal_strlit("Sample");
    reveal_strlit("Volume");
    let ks = keys_of(key_sound_fields());
    assert(ks[0].len() == 6 && ks[0][0] == 'S' && ks[0][1] == 'a');
    assert(ks[1].len() == 6 && ks[1][0] == 'V' && ks[1][1] == 'o');
}

} // verus!
