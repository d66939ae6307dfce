use rotozoomer::audio::{
    AudioOutput, AudioPlayer, AUDIO_BPM, AUDIO_FS, LAMP_SAMPLES, SAMPLES_PER_BEAT, WAV_HDR_SIZE,
};

fn asset_of(len: usize) -> Vec<u8> {
    let mut audio: Vec<u8> = vec![0u8; len];
    let mut i: usize = 0;
    while i < len {
        audio[i] = (i % 251) as u8;
        i += 1;
    }
    audio
}

#[test]
fn audio_constants() {
    assert_eq!(AUDIO_FS, 25_000);
    assert_eq!(AUDIO_BPM, 130);
    assert_eq!(WAV_HDR_SIZE, 44);
    assert_eq!(SAMPLES_PER_BEAT, 11_538);
    assert_eq!(SAMPLES_PER_BEAT as u32, AUDIO_FS * 60 / AUDIO_BPM);
    assert_eq!(LAMP_SAMPLES, 1_250);
    assert_eq!(LAMP_SAMPLES as u32, AUDIO_FS / 20);
}

#[test]
fn new_player_stands_behind_the_header() {
    let player = AudioPlayer::new();
    assert_eq!(player, AudioPlayer { sample_pos: 44, beat_count: 0 });
}

#[test]
fn first_tick_counts_the_first_beat() {
    let audio = asset_of(1000);
    let mut player = AudioPlayer::new();
    let out = player.tick(&audio);
    assert_eq!(out, AudioOutput { lamp_on: true, duty: 44 });
    assert_eq!(player, AudioPlayer { sample_pos: 45, beat_count: 1 });
    let out = player.tick(&audio);
    assert_eq!(out, AudioOutput { lamp_on: true, duty: 45 });
    assert_eq!(player, AudioPlayer { sample_pos: 46, beat_count: 1 });
}

#[test]
fn lamp_goes_out_a_twentieth_of_a_second_after_the_beat() {
    let audio = asset_of(30_000);
    let mut player = AudioPlayer { sample_pos: 44 + 1249, beat_count: 1 };
    assert!(player.tick(&audio).lamp_on);
    assert!(!player.tick(&audio).lamp_on);
    let mut before_beat = AudioPlayer { sample_pos: 44 + 11_537, beat_count: 1 };
    assert!(!before_beat.tick(&audio).lamp_on);
    assert_eq!(before_beat.beat_count, 1);
    assert!(before_beat.tick(&audio).lamp_on);
    assert_eq!(before_beat.beat_count, 2);
}

#[test]
fn duty_is_the_sample() {
    let audio = asset_of(600);
    let mut player = AudioPlayer::new();
    let mut pos: usize = 44;
    while pos < 600 {
        assert_eq!(player.sample_pos, pos);
        let out = player.tick(&audio);
        assert_eq!(out.duty, (pos % 251) as u16);
        pos += 1;
    }
    assert_eq!(player, AudioPlayer::new());
}

#[test]
fn beats_are_counted_once_for_each_beat_and_reset_with_the_asset() {
    let len: usize = 44 + 3 * 11_538 + 100;
    let audio = asset_of(len);
    let mut player = AudioPlayer::new();
    let mut last: u32 = 0;
    let mut played: usize = 0;
    while played < 3 * 11_538 + 99 {
        assert!(player.can_tick(&audio));
        player.tick(&audio);
        played += 1;
        assert!(player.beat_count >= last);
        assert!(player.beat_count <= last + 1);
        assert_eq!(player.beat_count as usize, (played + 11_537) / 11_538);
        last = player.beat_count;
    }
    assert_eq!(player, AudioPlayer { sample_pos: len - 1, beat_count: 4 });
    player.tick(&audio);
    assert_eq!(player, AudioPlayer::new());
    player.tick(&audio);
    assert_eq!(player, AudioPlayer { sample_pos: 45, beat_count: 1 });
}

#[test]
fn asset_of_one_sample_repeats_it() {
    let audio = asset_of(45);
    let mut player = AudioPlayer::new();
    let out = player.tick(&audio);
    assert_eq!(out, AudioOutput { lamp_on: true, duty: 44 });
    assert_eq!(player, AudioPlayer::new());
}

#[test]
fn can_tick_tells_when_a_sample_can_be_put_out() {
    let audio = asset_of(100);
    assert!(AudioPlayer::new().can_tick(&audio));
    assert!(AudioPlayer { sample_pos: 99, beat_count: 7 }.can_tick(&audio));
    assert!(!AudioPlayer { sample_pos: 100, beat_count: 0 }.can_tick(&audio));
    assert!(!AudioPlayer { sample_pos: 43, beat_count: 0 }.can_tick(&audio));
    assert!(!AudioPlayer::new().can_tick(&audio[..44]));
    assert!(!AudioPlayer::new().can_tick(&[]));
    assert!(!AudioPlayer { sample_pos: 44, beat_count: u32::MAX }.can_tick(&audio));
    assert!(AudioPlayer { sample_pos: 45, beat_count: u32::MAX }.can_tick(&audio));
}

#[test]
fn full_counter_stays_between_beats() {
    let audio = asset_of(100);
    let mut player = AudioPlayer { sample_pos: 45, beat_count: u32::MAX };
    player.tick(&audio);
    assert_eq!(player, AudioPlayer { sample_pos: 46, beat_count: u32::MAX });
}
