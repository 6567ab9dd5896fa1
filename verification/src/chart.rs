//! The chart and its entries: what each holds, what each is by default, and
//! the mathematical value that the contracts speak of.
//!
//! A number that need not be whole is kept as the `serde_yaml::Number` that
//! the document wrote, so that writing it again changes nothing.

use vstd::prelude::*;
use crate::mode::{GameMode, TimeSignature};
use crate::tree::Num;
use crate::yaml::{number_from_int, number_view};

verus! {

/// The mathematical values of the items of a list, in their order.
pub open spec fn views<T: View>(items: Seq<T>) -> Seq<T::V> {
    items.map_values(|x: T| x@)
}

/// Editor layers to separate notes into different layers.
///
/// Color is provided in rrr,ggg,bbb format.
#[derive(Clone, Debug, PartialEq)]
pub struct EditorLayerInfo {
    /// The name of the layer
    pub name: String,
    /// Is the layer hidden in the editor?
    pub hidden: bool,
    /// The color of the layer (default is white) in rrr,ggg,bbb format
    pub color_rgb: String,
}

/// The value of an `EditorLayerInfo`.
pub struct EditorLayerView {
    pub name: Seq<char>,
    pub hidden: bool,
    pub color_rgb: Seq<char>,
}

impl EditorLayerView {
    /// A layer without a name, shown, in white.
    pub open spec fn defaults() -> EditorLayerView {
        EditorLayerView { name: Seq::empty(), hidden: false, color_rgb: "255,255,255"@ }
    }
}

impl View for EditorLayerInfo {
    type V = EditorLayerView;

    open spec fn view(&self) -> EditorLayerView {
        EditorLayerView { name: self.name@, hidden: self.hidden, color_rgb: self.color_rgb@ }
    }
}

impl Default for EditorLayerInfo {
    fn default() -> (r: Self)
        ensures
            r@ == EditorLayerView::defaults(),
    {
        Self { name: String::new(), hidden: false, color_rgb: "255,255,255".to_owned() }
    }
}

/// Custom audio samples that can be assigned to different hit objects
#[derive(Clone, Debug, PartialEq)]
pub struct CustomAudioSampleInfo {
    /// The path to the audio sample.
    pub path: String,
    /// If true, the audio sample is always played back at 1.0x speed, regardless of the rate.
    pub unaffected_by_rate: bool,
}

/// The value of a `CustomAudioSampleInfo`.
pub struct CustomAudioSampleView {
    pub path: Seq<char>,
    pub unaffected_by_rate: bool,
}

impl CustomAudioSampleView {
    /// A sample without a path, played at the rate of the song.
    pub open spec fn defaults() -> CustomAudioSampleView {
        CustomAudioSampleView { path: Seq::empty(), unaffected_by_rate: false }
    }
}

impl View for CustomAudioSampleInfo {
    type V = CustomAudioSampleView;

    open spec fn view(&self) -> CustomAudioSampleView {
        CustomAudioSampleView { path: self.path@, unaffected_by_rate: self.unaffected_by_rate }
    }
}

impl Default for CustomAudioSampleInfo {
    fn default() -> (r: Self)
        ensures
            r@ == CustomAudioSampleView::defaults(),
    {
        Self { path: String::new(), unaffected_by_rate: false }
    }
}

/// Sound effect played at a specific moment in time
#[derive(Clone, Debug, PartialEq)]
pub struct SoundEffectInfo {
    /// The time at which to play the sound sample.
    pub start_time: serde_yaml::Number,
    /// The one-based index of the sound sample in the CustomAudioSamples array.
    pub sample: i32,
    /// The volume of the sound sample.
    pub volume: i32,
}

/// The value of a `SoundEffectInfo`.
pub struct SoundEffectView {
    pub start_time: Num,
    pub sample: i32,
    pub volume: i32,
}

impl SoundEffectView {
    /// An effect at the start of the song, of no sample and no volume.
    pub open spec fn defaults() -> SoundEffectView {
        SoundEffectView { start_time: Num::Int(0), sample: 0, volume: 0 }
    }
}

impl View for SoundEffectInfo {
    type V = SoundEffectView;

    open spec fn view(&self) -> SoundEffectView {
        SoundEffectView {
            start_time: number_view(self.start_time),
            sample: self.sample,
            volume: self.volume,
        }
    }
}

impl Default for SoundEffectInfo {
    fn default() -> (r: Self)
        ensures
            r@ == SoundEffectView::defaults(),
    {
        Self { start_time: number_from_int(0), sample: 0, volume: 0 }
    }
}

/// A moment in time where the BPM of a song changes
///
/// A timing point holds from its start until the start of the next one, or
/// until the end of the chart.
#[derive(Clone, Debug, PartialEq)]
pub struct TimingPointInfo {
    /// The time in milliseconds for when this timing point begins
    pub start_time: serde_yaml::Number,
    /// The BPM during this timing point
    pub bpm: serde_yaml::Number,
    /// The signature during this timing point
    pub signature: TimeSignature,
    /// Whether timing lines during this timing point should be hidden or not
    pub hidden: bool,
}

/// The value of a `TimingPointInfo`.
pub struct TimingPointView {
    pub start_time: Num,
    pub bpm: Num,
    pub signature: TimeSignature,
    pub hidden: bool,
}

impl TimingPointView {
    /// A timing point at the start of the song, of no tempo, in four beats,
    /// with its lines shown.
    pub open spec fn defaults() -> TimingPointView {
        TimingPointView {
            start_time: Num::Int(0),
            bpm: Num::Int(0),
            signature: TimeSignature::Quadruple,
            hidden: false,
        }
    }
}

impl View for TimingPointInfo {
    type V = TimingPointView;

    open spec fn view(&self) -> TimingPointView {
        TimingPointView {
            start_time: number_view(self.start_time),
            bpm: number_view(self.bpm),
            signature: self.signature,
            hidden: self.hidden,
        }
    }
}

impl Default for TimingPointInfo {
    fn default() -> (r: Self)
        ensures
            r@ == TimingPointView::defaults(),
    {
        Self {
            start_time: number_from_int(0),
            bpm: number_from_int(0),
            signature: TimeSignature::Quadruple,
            hidden: false,
        }
    }
}

/// A moment in time where the scroll velocity changes
///
/// Whether the multiplier is relative to the tempo in force at that moment is
/// the chart's to say.
#[derive(Clone, Debug, PartialEq)]
pub struct ScrollVelocityInfo {
    /// The time in milliseconds when the new SliderVelocity section begins
    pub start_time: i32,
    /// The velocity multiplier
    pub multiplier: serde_yaml::Number,
}

/// The value of a `ScrollVelocityInfo`.
pub struct ScrollVelocityView {
    pub start_time: i32,
    pub multiplier: Num,
}

impl View for ScrollVelocityInfo {
    type V = ScrollVelocityView;

    open spec fn view(&self) -> ScrollVelocityView {
        ScrollVelocityView { start_time: self.start_time, multiplier: number_view(self.multiplier) }
    }
}

/// Key sounds that are played for a specific note with a given volume
#[derive(Clone, Copy, Debug, PartialEq, Eq, Structural)]
pub struct KeySoundInfo {
    /// Index in the CustomAudioSamples array
    pub sample: i32,
    /// How loud the sound is played (0-100)
    pub volume: i32,
}

impl KeySoundInfo {
    /// A key sound of no sample, at full volume.
    pub open spec fn defaults() -> KeySoundInfo {
        KeySoundInfo { sample: 0, volume: 100 }
    }
}

impl View for KeySoundInfo {
    type V = KeySoundInfo;

    open spec fn view(&self) -> KeySoundInfo {
        *self
    }
}

impl Default for KeySoundInfo {
    fn default() -> (r: Self)
        ensures
            r == KeySoundInfo::defaults(),
    {
        Self { sample: 0, volume: 100 }
    }
}

/// A note to be played in-game
///
/// A long note will have an end_time > 0.
#[derive(Clone, Debug, PartialEq)]
pub struct HitObjectInfo {
    /// The time in milliseconds when the HitObject is supposed to be hit.
    pub start_time: i32,
    /// The lane the HitObject falls in
    pub lane: i32,
    /// The endtime of the HitObject (if greater than 0, it's considered a hold note.)
    pub end_time: i32,
    /// Bitwise combination of hit sounds for this object
    pub hit_sound: u8,
    /// Key sounds to play when this object is hit.
    pub key_sounds: Vec<KeySoundInfo>,
    /// The layer in the editor that the object belongs to (index in the array).
    pub editor_layer: i32,
}

/// The value of a `HitObjectInfo`.
pub struct HitObjectView {
    pub start_time: i32,
    pub lane: i32,
    pub end_time: i32,
    pub hit_sound: u8,
    pub key_sounds: Seq<KeySoundInfo>,
    pub editor_layer: i32,
}

impl HitObjectView {
    /// A tap at the start of the song, in the first lane, without sounds, in
    /// the first layer.
    pub open spec fn defaults() -> HitObjectView {
        HitObjectView {
            start_time: 0,
            lane: 1,
            end_time: 0,
            hit_sound: 0,
            key_sounds: Seq::empty(),
            editor_layer: 0,
        }
    }
}

impl View for HitObjectInfo {
    type V = HitObjectView;

    open spec fn view(&self) -> HitObjectView {
        HitObjectView {
            start_time: self.start_time,
            lane: self.lane,
            end_time: self.end_time,
            hit_sound: self.hit_sound,
            key_sounds: views(self.key_sounds@),
            editor_layer: self.editor_layer,
        }
    }
}

impl Default for HitObjectInfo {
    fn default() -> (r: Self)
        ensures
            r@ == HitObjectView::defaults(),
    {
        let r = Self {
            start_time: 0,
            lane: 1,
            end_time: 0,
            hit_sound: 0,
            key_sounds: Vec::new(),
            editor_layer: 0,
        };
        proof {
            assert(r@.key_sounds =~= Seq::empty());
        }
        r
    }
}

/// Represents the .qua file format
///
/// Hitsounds are kept as the number that the document holds.
/// Genre is unused, but does exist in the format.
#[derive(Clone, Debug, PartialEq)]
pub struct Qua {
    /// The name of the audio file
    pub audio_file: String,
    /// Time in milliseconds of the song where the preview starts
    pub song_preview_time: i32,
    /// The name of the background file
    pub background_file: String,
    /// The name of the mapset banner
    pub banner_file: String,
    /// The unique Map Identifier (-1 if not submitted)
    pub map_id: i32,
    /// The unique Map Set identifier (-1 if not submitted)
    pub map_set_id: i32,
    /// The game mode for this map
    pub game_mode: GameMode,
    /// The title of the song
    pub title: String,
    /// The artist of the song
    pub artist: String,
    /// The source of the song (album, mixtape, etc.)
    pub source: String,
    /// Any tags that could be used to help find the song.
    pub tags: String,
    /// The creator of the map
    pub creator: String,
    /// The difficulty name of the map.
    pub difficulty_name: String,
    /// A description about this map.
    pub description: String,
    /// The genre of the song
    pub genre: String,
    /// Indicates if the BPM changes in affect scroll velocity.
    ///
    /// If this is set to false, SliderVelocities are in the denormalized format (BPM affects SV),
    /// and if this is set to true, SliderVelocities are in the normalized format (BPM does not affect SV).
    pub bpm_does_not_affect_scroll_velocity: bool,
    /// The initial scroll velocity before the first SV change.
    ///
    /// Only matters if BPMDoesNotAffectScrollVelocity is true.
    pub initial_scroll_velocity: serde_yaml::Number,
    /// If true, the map will have a +1 scratch key, allowing for 5/8 key play
    pub has_scratch_key: bool,
    /// EditorLayer .qua data
    pub editor_layers: Vec<EditorLayerInfo>,
    /// CustomAudioSamples .qua data
    pub custom_audio_samples: Vec<CustomAudioSampleInfo>,
    /// SoundEffects .qua data
    pub sound_effects: Vec<SoundEffectInfo>,
    /// TimingPoint .qua data
    pub timing_points: Vec<TimingPointInfo>,
    /// Slider Velocity .qua data
    ///
    /// Note that SVs can be both in normalized and denormalized form, depending on BPMDoesNotAffectSV.
    pub slider_velocities: Vec<ScrollVelocityInfo>,
    /// HitObject .qua data
    pub hit_objects: Vec<HitObjectInfo>,
}

/// The value of a `Qua`.
pub struct QuaView {
    pub audio_file: Seq<char>,
    pub song_preview_time: i32,
    pub background_file: Seq<char>,
    pub banner_file: Seq<char>,
    pub map_id: i32,
    pub map_set_id: i32,
    pub game_mode: GameMode,
    pub title: Seq<char>,
    pub artist: Seq<char>,
    pub source: Seq<char>,
    pub tags: Seq<char>,
    pub creator: Seq<char>,
    pub difficulty_name: Seq<char>,
    pub description: Seq<char>,
    pub genre: Seq<char>,
    pub bpm_does_not_affect_scroll_velocity: bool,
    pub initial_scroll_velocity: Num,
    pub has_scratch_key: bool,
    pub editor_layers: Seq<EditorLayerView>,
    pub custom_audio_samples: Seq<CustomAudioSampleView>,
    pub sound_effects: Seq<SoundEffectView>,
    pub timing_points: Seq<TimingPointView>,
    pub slider_velocities: Seq<ScrollVelocityView>,
    pub hit_objects: Seq<HitObjectView>,
}

impl QuaView {
    /// The chart that nothing was said of: no texts, no entries, not submitted
    /// anywhere, for four keys, at scroll velocity one.
    pub open spec fn defaults() -> QuaView {
        QuaView {
            audio_file: Seq::empty(),
            song_preview_time: 0,
            background_file: Seq::empty(),
            banner_file: Seq::empty(),
            map_id: -1i32,
            map_set_id: -1i32,
            game_mode: GameMode::Keys4,
            title: Seq::empty(),
            artist: Seq::empty(),
            source: Seq::empty(),
            tags: Seq::empty(),
            creator: Seq::empty(),
            difficulty_name: Seq::empty(),
            description: Seq::empty(),
            genre: Seq::empty(),
            bpm_does_not_affect_scroll_velocity: false,
            initial_scroll_velocity: Num::Int(1),
            has_scratch_key: false,
            editor_layers: Seq::empty(),
            custom_audio_samples: Seq::empty(),
            sound_effects: Seq::empty(),
            timing_points: Seq::empty(),
            slider_velocities: Seq::empty(),
            hit_objects: Seq::empty(),
        }
    }
}

impl View for Qua {
    type V = QuaView;

    open spec fn view(&self) -> QuaView {
        QuaView {
            audio_file: self.audio_file@,
            song_preview_time: self.song_preview_time,
            background_file: self.background_file@,
            banner_file: self.banner_file@,
            map_id: self.map_id,
            map_set_id: self.map_set_id,
            game_mode: self.game_mode,
            title: self.title@,
            artist: self.artist@,
            source: self.source@,
            tags: self.tags@,
            creator: self.creator@,
            difficulty_name: self.difficulty_name@,
            description: self.description@,
            genre: self.genre@,
            bpm_does_not_affect_scroll_velocity: self.bpm_does_not_affect_scroll_velocity,
            initial_scroll_velocity: number_view(self.initial_scroll_velocity),
            has_scratch_key: self.has_scratch_key,
            editor_layers: views(self.editor_layers@),
            custom_audio_samples: views(self.custom_audio_samples@),
            sound_effects: views(self.sound_effects@),
            timing_points: views(self.timing_points@),
            slider_velocities: views(self.slider_velocities@),
            hit_objects: views(self.hit_objects@),
        }
    }
}

impl Default for Qua {
    fn default() -> (r: Self)
        ensures
            r@ == QuaView::defaults(),
    {
        let r = Self {
            audio_file: String::new(),
            song_preview_time: 0,
            background_file: String::new(),
            banner_file: String::new(),
            map_id: -1,
            map_set_id: -1,
            game_mode: GameMode::Keys4,
            title: String::new(),
            artist: String::new(),
            source: String::new(),
            tags: String::new(),
            creator: String::new(),
            difficulty_name: String::new(),
            description: String::new(),
            genre: String::new(),
            bpm_does_not_affect_scroll_velocity: false,
            initial_scroll_velocity: number_from_int(1),
            has_scratch_key: false,
            editor_layers: Vec::new(),
            custom_audio_samples: Vec::new(),
            sound_effects: Vec::new(),
            timing_points: Vec::new(),
            slider_velocities: Vec::new(),
            hit_objects: Vec::new(),
        };
        proof {
            assert(r@.editor_layers =~= Seq::empty());
            assert(r@.custom_audio_samples =~= Seq::empty());
            assert(r@.sound_effects =~= Seq::empty());
            assert(r@.timing_points =~= Seq::empty());
            assert(r@.slider_velocities =~= Seq::empty());
            assert(r@.hit_objects =~= Seq::empty());
        }
        r
    }
}

} // verus!
