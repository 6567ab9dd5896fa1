use qua_format::{
    CustomAudioSampleInfo, EditorLayerInfo, Entry, GameMode, HitObjectInfo, KeySoundInfo, Qua,
    ScrollVelocityInfo, SoundEffectInfo, TimeSignature, TimingPointInfo,
};
use serde_yaml::{Number, Value};

fn full_chart() -> Qua {
    Qua {
        audio_file: "audio.mp3".to_string(),
        song_preview_time: 1234,
        background_file: "bg.png".to_string(),
        banner_file: "banner.png".to_string(),
        map_id: 99,
        map_set_id: 7,
        game_mode: GameMode::Keys7,
        title: "Freedom Dive".to_string(),
        artist: "xi".to_string(),
        source: "album: side B".to_string(),
        tags: "fast, hard # not a comment".to_string(),
        creator: " someone ".to_string(),
        difficulty_name: "12".to_string(),
        description: "first line\nsecond line\n".to_string(),
        genre: "true".to_string(),
        bpm_does_not_affect_scroll_velocity: true,
        initial_scroll_velocity: Number::from(1.25),
        has_scratch_key: true,
        editor_layers: vec![
            EditorLayerInfo {
                name: "drums".to_string(),
                hidden: true,
                color_rgb: "1,2,3".to_string(),
            },
            EditorLayerInfo::default(),
        ],
        custom_audio_samples: vec![CustomAudioSampleInfo {
            path: "clap.wav".to_string(),
            unaffected_by_rate: true,
        }],
        sound_effects: vec![SoundEffectInfo {
            start_time: Number::from(10.5),
            sample: 1,
            volume: 80,
        }],
        timing_points: vec![
            TimingPointInfo {
                start_time: Number::from(0),
                bpm: Number::from(222.22),
                signature: TimeSignature::Quadruple,
                hidden: false,
            },
            TimingPointInfo {
                start_time: Number::from(60000.5),
                bpm: Number::from(111),
                signature: TimeSignature::Triple,
                hidden: true,
            },
        ],
        slider_velocities: vec![
            ScrollVelocityInfo {
                start_time: -5,
                multiplier: Number::from(0.1),
            },
            ScrollVelocityInfo {
                start_time: 70000,
                multiplier: Number::from(-2),
            },
        ],
        hit_objects: vec![
            HitObjectInfo::default(),
            HitObjectInfo {
                start_time: 500,
                lane: 7,
                end_time: 900,
                hit_sound: 255,
                key_sounds: vec![
                    KeySoundInfo {
                        sample: 1,
                        volume: 55,
                    },
                    KeySoundInfo::default(),
                ],
                editor_layer: 1,
            },
        ],
    }
}

const DEFAULT_TEXT: &str = "\
AudioFile: ''
SongPreviewTime: 0
BackgroundFile: ''
BannerFile: ''
MapId: -1
MapSetId: -1
Mode: 1
Title: ''
Artist: ''
Source: ''
Tags: ''
Creator: ''
DifficultyName: ''
Description: ''
Genre: ''
BpmDoesNotAffectScrollVelocity: false
InitialScrollVelocity: 1
HasScratchKey: false
EditorLayers: []
CustomAudioSamples: []
SoundEffects: []
TimingPoints: []
SliderVelocities: []
HitObjects: []
";

#[test]
fn test_write() {
    let qua = Qua {
        title: "Freedom Dive".to_string(),
        artist: "xi".to_string(),
        ..Default::default()
    };

    let text = qua.to_text().expect("Could not write to file");
    assert_eq!(
        text,
        DEFAULT_TEXT
            .replace("Title: ''", "Title: Freedom Dive")
            .replace("Artist: ''", "Artist: xi")
    );
}

#[test]
fn test_read_write() {
    let mut qua = Qua::from_str(
        "Title: Csikos Post\nArtist: zetoban\nMapId: 1416\nTimingPoints:\n- Bpm: 140\nHitObjects:\n- Lane: 1\n",
    )
    .expect("Could not parse qua");

    qua.title = "Freedom Dive".to_string();

    let text = qua.to_text().expect("Could not write to file");
    let again = Qua::from_str(&text).expect("Could not parse qua");
    assert_eq!(again, qua);
    assert_eq!(again.title, "Freedom Dive");
    assert_eq!(again.artist, "zetoban");
    assert_eq!(again.map_id, 1416);
}

#[test]
fn default_chart_as_text() {
    assert_eq!(Qua::default().to_text().unwrap(), DEFAULT_TEXT);
}

#[test]
fn every_field_is_written_default_or_not() {
    let value = Qua::default().to_value();
    let keys: Vec<&str> = value
        .as_mapping()
        .unwrap()
        .keys()
        .map(|k| k.as_str().unwrap())
        .collect();
    assert_eq!(
        keys,
        vec![
            "AudioFile",
            "SongPreviewTime",
            "BackgroundFile",
            "BannerFile",
            "MapId",
            "MapSetId",
            "Mode",
            "Title",
            "Artist",
            "Source",
            "Tags",
            "Creator",
            "DifficultyName",
            "Description",
            "Genre",
            "BpmDoesNotAffectScrollVelocity",
            "InitialScrollVelocity",
            "HasScratchKey",
            "EditorLayers",
            "CustomAudioSamples",
            "SoundEffects",
            "TimingPoints",
            "SliderVelocities",
            "HitObjects",
        ]
    );
}

#[test]
fn game_modes_are_written_as_their_numbers() {
    let mut qua = Qua::default();
    assert_eq!(qua.to_value()["Mode"], Value::from(1));
    assert!(qua.to_text().unwrap().contains("\nMode: 1\n"));
    qua.game_mode = GameMode::Keys7;
    assert_eq!(qua.to_value()["Mode"], Value::from(2));
    assert!(qua.to_text().unwrap().contains("\nMode: 2\n"));
}

#[test]
fn signatures_are_written_as_their_numbers() {
    let mut point = TimingPointInfo::default();
    assert_eq!(point.to_value()["Signature"], Value::from(4));
    point.signature = TimeSignature::Triple;
    assert_eq!(point.to_value()["Signature"], Value::from(3));
}

#[test]
fn full_chart_as_value() {
    let value = full_chart().to_value();
    assert_eq!(value["AudioFile"], Value::from("audio.mp3"));
    assert_eq!(value["SongPreviewTime"], Value::from(1234));
    assert_eq!(value["MapId"], Value::from(99));
    assert_eq!(value["MapSetId"], Value::from(7));
    assert_eq!(value["Mode"], Value::from(2));
    assert_eq!(value["DifficultyName"], Value::from("12"));
    assert_eq!(value["BpmDoesNotAffectScrollVelocity"], Value::from(true));
    assert_eq!(value["InitialScrollVelocity"], Value::from(1.25));
    assert_eq!(value["HasScratchKey"], Value::from(true));
    assert_eq!(value["EditorLayers"][0]["Name"], Value::from("drums"));
    assert_eq!(value["EditorLayers"][0]["Hidden"], Value::from(true));
    assert_eq!(value["EditorLayers"][1]["ColorRgb"], Value::from("255,255,255"));
    assert_eq!(value["CustomAudioSamples"][0]["Path"], Value::from("clap.wav"));
    assert_eq!(value["SoundEffects"][0]["StartTime"], Value::from(10.5));
    assert_eq!(value["SoundEffects"][0]["Volume"], Value::from(80));
    assert_eq!(value["TimingPoints"][0]["StartTime"], Value::from(0));
    assert_eq!(value["TimingPoints"][1]["StartTime"], Value::from(60000.5));
    assert_eq!(value["TimingPoints"][1]["Bpm"], Value::from(111));
    assert_eq!(value["TimingPoints"][1]["Signature"], Value::from(3));
    assert_eq!(value["SliderVelocities"][0]["StartTime"], Value::from(-5));
    assert_eq!(value["SliderVelocities"][1]["Multiplier"], Value::from(-2));
    assert_eq!(value["HitObjects"][1]["Lane"], Value::from(7));
    assert_eq!(value["HitObjects"][1]["HitSound"], Value::from(255));
    assert_eq!(value["HitObjects"][1]["KeySounds"][0]["Volume"], Value::from(55));
    assert_eq!(value["HitObjects"][1]["KeySounds"][1]["Volume"], Value::from(100));
    assert_eq!(value["HitObjects"].as_sequence().unwrap().len(), 2);
    assert_eq!(value.as_mapping().unwrap().len(), 24);
}

#[test]
fn entries_as_text() {
    let mut qua = Qua::default();
    qua.hit_objects.push(HitObjectInfo {
        start_time: 500,
        lane: 2,
        end_time: 0,
        hit_sound: 4,
        key_sounds: vec![KeySoundInfo {
            sample: 3,
            volume: 90,
        }],
        editor_layer: 0,
    });
    qua.timing_points.push(TimingPointInfo {
        start_time: Number::from(100),
        bpm: Number::from(180.5),
        signature: TimeSignature::Triple,
        hidden: false,
    });
    let want = DEFAULT_TEXT
        .replace(
            "TimingPoints: []\n",
            "TimingPoints:\n- StartTime: 100\n  Bpm: 180.5\n  Signature: 3\n  Hidden: false\n",
        )
        .replace(
            "HitObjects: []\n",
            "HitObjects:\n- StartTime: 500\n  Lane: 2\n  EndTime: 0\n  HitSound: 4\n  KeySounds:\n  - Sample: 3\n    Volume: 90\n  EditorLayer: 0\n",
        );
    assert_eq!(qua.to_text().unwrap(), want);
}

#[test]
fn default_chart_round_trip() {
    let qua = Qua::default();
    assert_eq!(Qua::from_str(&qua.to_text().unwrap()).unwrap(), qua);
    assert_eq!(Qua::from_value(&qua.to_value()).unwrap(), qua);
}

#[test]
fn full_chart_round_trip() {
    let qua = full_chart();
    assert_eq!(Qua::from_value(&qua.to_value()).unwrap(), qua);
    assert_eq!(Qua::from_str(&qua.to_text().unwrap()).unwrap(), qua);
}

#[test]
fn texts_that_look_like_other_scalars_round_trip() {
    for text in [
        "", "12", "-3", "1.5", "1e3", "0x1F", "true", "false", "null", "~", "yes", ".inf", ".nan",
        " lead", "trail ", "a: b", "- a", "# c", "'", "\"", "two\nlines", "tab\there", "é ü 譜面",
        "[a]", "{a: b}", "!tag", "&a", "*a", "|", ">", "%", "@", "`",
    ] {
        let mut qua = Qua::default();
        qua.title = text.to_string();
        qua.editor_layers.push(EditorLayerInfo {
            name: text.to_string(),
            hidden: false,
            color_rgb: text.to_string(),
        });
        let again = Qua::from_str(&qua.to_text().unwrap()).unwrap();
        assert_eq!(again, qua, "for {:?}", text);
    }
}

#[test]
fn numbers_round_trip() {
    for number in [
        Number::from(0),
        Number::from(-1),
        Number::from(i64::MIN),
        Number::from(u64::MAX),
        Number::from(0.0),
        Number::from(-0.5),
        Number::from(0.1),
        Number::from(1.0e300),
        Number::from(5.0e-324),
        Number::from(f64::INFINITY),
        Number::from(f64::NEG_INFINITY),
        Number::from(f64::NAN),
    ] {
        let mut qua = Qua::default();
        qua.initial_scroll_velocity = number.clone();
        qua.slider_velocities.push(ScrollVelocityInfo {
            start_time: 1,
            multiplier: number.clone(),
        });
        let again = Qua::from_str(&qua.to_text().unwrap()).unwrap();
        assert_eq!(again, qua, "for {:?}", number);
    }
}

#[test]
fn whole_numbers_round_trip_at_their_bounds() {
    let mut qua = Qua::default();
    qua.map_id = i32::MAX;
    qua.map_set_id = i32::MIN;
    qua.hit_objects.push(HitObjectInfo {
        start_time: i32::MIN,
        lane: i32::MAX,
        end_time: -1,
        hit_sound: u8::MAX,
        key_sounds: Vec::new(),
        editor_layer: i32::MAX,
    });
    let again = Qua::from_str(&qua.to_text().unwrap()).unwrap();
    assert_eq!(again, qua);
}

#[test]
fn writing_is_the_same_each_time() {
    let qua = full_chart();
    assert_eq!(qua.to_text().unwrap(), qua.to_text().unwrap());
    assert_eq!(qua.to_value(), qua.clone().to_value());
}

#[test]
fn unknown_key_is_not_written_again() {
    let qua = Qua::from_str("Title: t\nFavouriteColour: blue\n").unwrap();
    let text = qua.to_text().unwrap();
    assert!(!text.contains("FavouriteColour"));
    assert!(!text.contains("blue"));
    assert_eq!(text, DEFAULT_TEXT.replace("Title: ''", "Title: t"));
    assert_eq!(qua.to_value().get("FavouriteColour"), None);
}

#[test]
fn entries_round_trip_as_values() {
    let qua = full_chart();
    for layer in &qua.editor_layers {
        assert_eq!(&EditorLayerInfo::from_value(&layer.to_value()).unwrap(), layer);
    }
    for sample in &qua.custom_audio_samples {
        assert_eq!(&CustomAudioSampleInfo::from_value(&sample.to_value()).unwrap(), sample);
    }
    for effect in &qua.sound_effects {
        assert_eq!(&SoundEffectInfo::from_value(&effect.to_value()).unwrap(), effect);
    }
    for point in &qua.timing_points {
        assert_eq!(&TimingPointInfo::from_value(&point.to_value()).unwrap(), point);
    }
    for velocity in &qua.slider_velocities {
        assert_eq!(&ScrollVelocityInfo::from_value(&velocity.to_value()).unwrap(), velocity);
    }
    for note in &qua.hit_objects {
        assert_eq!(&HitObjectInfo::from_value(&note.to_value()).unwrap(), note);
        for sound in &note.key_sounds {
            assert_eq!(&KeySoundInfo::from_value(&sound.to_value()).unwrap(), sound);
        }
    }
}
