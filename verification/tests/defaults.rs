use qua_format::{
    CustomAudioSampleInfo, EditorLayerInfo, Field, GameMode, HitObjectInfo, KeySoundInfo, Qua,
    SoundEffectInfo, TimeSignature, TimingPointInfo,
};
use serde_yaml::Number;

#[test]
fn default_chart() {
    let q = Qua::default();
    assert_eq!(q.audio_file, "");
    assert_eq!(q.song_preview_time, 0);
    assert_eq!(q.background_file, "");
    assert_eq!(q.banner_file, "");
    assert_eq!(q.map_id, -1);
    assert_eq!(q.map_set_id, -1);
    assert_eq!(q.game_mode, GameMode::Keys4);
    assert_eq!(q.title, "");
    assert_eq!(q.artist, "");
    assert_eq!(q.source, "");
    assert_eq!(q.tags, "");
    assert_eq!(q.creator, "");
    assert_eq!(q.difficulty_name, "");
    assert_eq!(q.description, "");
    assert_eq!(q.genre, "");
    assert!(!q.bpm_does_not_affect_scroll_velocity);
    assert_eq!(q.initial_scroll_velocity, Number::from(1));
    assert_eq!(q.initial_scroll_velocity.as_f64(), Some(1.0));
    assert!(!q.has_scratch_key);
    assert!(q.editor_layers.is_empty());
    assert!(q.custom_audio_samples.is_empty());
    assert!(q.sound_effects.is_empty());
    assert!(q.timing_points.is_empty());
    assert!(q.slider_velocities.is_empty());
    assert!(q.hit_objects.is_empty());
}

#[test]
fn default_editor_layer() {
    let layer = EditorLayerInfo::default();
    assert_eq!(layer.name, "");
    assert!(!layer.hidden);
    assert_eq!(layer.color_rgb, "255,255,255");
}

#[test]
fn default_custom_audio_sample() {
    let sample = CustomAudioSampleInfo::default();
    assert_eq!(sample.path, "");
    assert!(!sample.unaffected_by_rate);
}

#[test]
fn default_sound_effect() {
    let effect = SoundEffectInfo::default();
    assert_eq!(effect.start_time.as_f64(), Some(0.0));
    assert_eq!(effect.sample, 0);
    assert_eq!(effect.volume, 0);
}

#[test]
fn default_timing_point() {
    let point = TimingPointInfo::default();
    assert_eq!(point.start_time.as_f64(), Some(0.0));
    assert_eq!(point.bpm.as_f64(), Some(0.0));
    assert_eq!(point.signature, TimeSignature::Quadruple);
    assert!(!point.hidden);
}

#[test]
fn default_hit_object() {
    let note = HitObjectInfo::default();
    assert_eq!(note.start_time, 0);
    assert_eq!(note.lane, 1);
    assert_eq!(note.end_time, 0);
    assert_eq!(note.hit_sound, 0);
    assert!(note.key_sounds.is_empty());
    assert_eq!(note.editor_layer, 0);
}

#[test]
fn default_key_sound() {
    let sound = KeySoundInfo::default();
    assert_eq!(sound.sample, 0);
    assert_eq!(sound.volume, 100);
}

#[test]
fn keys_of_the_chart_fields() {
    assert_eq!(Field::AudioFile.name(), "AudioFile");
    assert_eq!(Field::SongPreviewTime.name(), "SongPreviewTime");
    assert_eq!(Field::Mode.name(), "Mode");
    assert_eq!(
        Field::BpmDoesNotAffectScrollVelocity.name(),
        "BpmDoesNotAffectScrollVelocity"
    );
    assert_eq!(Field::SliderVelocities.name(), "SliderVelocities");
    assert_eq!(Field::HitObjects.name(), "HitObjects");
    assert_eq!(Field::Document.name(), "");
}

#[test]
fn keys_of_the_entry_fields() {
    assert_eq!(Field::LayerColorRgb.name(), "ColorRgb");
    assert_eq!(Field::SampleUnaffectedByRate.name(), "UnaffectedByRate");
    assert_eq!(Field::EffectStartTime.name(), "StartTime");
    assert_eq!(Field::TimingStartTime.name(), "StartTime");
    assert_eq!(Field::TimingBpm.name(), "Bpm");
    assert_eq!(Field::VelocityMultiplier.name(), "Multiplier");
    assert_eq!(Field::NoteHitSound.name(), "HitSound");
    assert_eq!(Field::NoteKeySounds.name(), "KeySounds");
    assert_eq!(Field::KeySoundVolume.name(), "Volume");
}
