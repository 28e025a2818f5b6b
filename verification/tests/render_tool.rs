use xxsynth::config::{AudioChannels, Interpolator, RenderConfig, ThreadCount};
use xxsynth::decimal::{decimal_string, push_decimal, push_decimal_units};
use xxsynth::render::{
    percent_field, render_arguments, render_outcome, ProgressScanner, RenderError, RenderOutcome,
};

fn strings(items: &[&str]) -> Vec<String> {
    items.iter().map(|s| s.to_string()).collect()
}

fn config() -> RenderConfig {
    let mut c = RenderConfig::default();
    c.input_midi = Some("song.mid".to_string());
    c
}

#[test]
fn the_default_options_in_order() {
    let args = render_arguments(&config(), &strings(&["a.sf2", "b.sfz"])).unwrap();
    assert_eq!(
        args,
        strings(&[
            "song.mid",
            "a.sf2",
            "b.sfz",
            "-o",
            "output.wav",
            "-s",
            "48000",
            "-c",
            "stereo",
            "-l",
            "32",
            "--channel-threading",
            "auto",
            "--key-threading",
            "auto",
            "-L",
            "-I",
            "linear",
        ])
    );
}

#[test]
fn every_option_set_the_other_way() {
    let c = RenderConfig {
        input_midi: Some("in.midi".to_string()),
        output_path: "out dir/x.wav".to_string(),
        sample_rate: 44100,
        audio_channels: AudioChannels::Mono,
        layers: 0,
        channel_threading: ThreadCount::Off,
        key_threading: ThreadCount::Manual(12),
        limiter: false,
        disable_fade_out: true,
        linear_envelope: true,
        interpolation: Interpolator::Nearest,
    };
    let args = render_arguments(&c, &strings(&["only.sf2"])).unwrap();
    assert_eq!(
        args,
        strings(&[
            "in.midi",
            "only.sf2",
            "-o",
            "out dir/x.wav",
            "-s",
            "44100",
            "-c",
            "mono",
            "-l",
            "0",
            "--channel-threading",
            "none",
            "--key-threading",
            "12",
            "--disable-fade-out",
            "--linear-envelope",
            "-I",
            "none",
        ])
    );
}

#[test]
fn no_interpolation_is_none() {
    let mut c = config();
    c.interpolation = Interpolator::Off;
    let args = render_arguments(&c, &strings(&["a.sf2"])).unwrap();
    assert_eq!(args[args.len() - 2..], strings(&["-I", "none"])[..]);
}

#[test]
fn all_three_switches_in_their_order() {
    let mut c = config();
    c.limiter = true;
    c.disable_fade_out = true;
    c.linear_envelope = true;
    let args = render_arguments(&c, &strings(&["a.sf2"])).unwrap();
    assert_eq!(
        args[14..],
        strings(&["-L", "--disable-fade-out", "--linear-envelope", "-I", "linear"])[..]
    );
}

#[test]
fn rendering_needs_a_bank() {
    assert_eq!(render_arguments(&config(), &Vec::new()), Err(RenderError::NoSoundfonts));
    let mut c = config();
    c.input_midi = None;
    assert_eq!(render_arguments(&c, &Vec::new()), Err(RenderError::NoSoundfonts));
}

#[test]
fn rendering_needs_an_input() {
    let mut c = config();
    c.input_midi = None;
    assert_eq!(render_arguments(&c, &strings(&["a.sf2"])), Err(RenderError::NoInputMidi));
    c.input_midi = Some(String::new());
    assert_eq!(render_arguments(&c, &strings(&["a.sf2"])), Err(RenderError::NoInputMidi));
}

#[test]
fn how_a_rendering_ended() {
    assert_eq!(render_outcome(false, false), RenderOutcome::ToolMissing);
    assert_eq!(render_outcome(false, true), RenderOutcome::ToolMissing);
    assert_eq!(render_outcome(true, false), RenderOutcome::ToolFailed);
    assert_eq!(render_outcome(true, true), RenderOutcome::Finished);
}

#[test]
fn the_percentage_is_the_digits_before_the_first_percent_sign() {
    assert_eq!(percent_field(b" 45% done"), Some((1, 3)));
    assert_eq!(percent_field(b"100%"), Some((0, 3)));
    assert_eq!(percent_field(b"[####    ] 7% eta 3s 99%"), Some((11, 12)));
    assert_eq!(percent_field(b"a1b22%"), Some((3, 5)));
}

#[test]
fn lines_without_a_percentage() {
    assert_eq!(percent_field(b""), None);
    assert_eq!(percent_field(b"loading"), None);
    assert_eq!(percent_field(b"12345"), None);
    assert_eq!(percent_field(b"%"), None);
    assert_eq!(percent_field(b"abc% 50%"), None);
    assert_eq!(percent_field(b"12 %"), None);
}

#[test]
fn the_scanner_reads_line_by_line() {
    let mut scanner = ProgressScanner::new();
    let mut found: Vec<String> = Vec::new();
    for &b in b"start\r 5% x\r 50%\n\nno percent\n100%\rtail 9%".iter() {
        if let Some(digits) = scanner.feed(b) {
            found.push(String::from_utf8(digits).unwrap());
        }
    }
    assert_eq!(found, strings(&["5", "50", "100"]));
    assert_eq!(scanner.line, b"tail 9%".to_vec());
    assert_eq!(scanner.feed(b'\n'), Some(b"9".to_vec()));
    assert!(scanner.line.is_empty());
    assert_eq!(scanner.feed(b'\n'), None);
}

#[test]
fn decimal_notation_has_no_leading_zeros() {
    assert_eq!(decimal_string(0), "0");
    assert_eq!(decimal_string(7), "7");
    assert_eq!(decimal_string(10), "10");
    assert_eq!(decimal_string(48000), "48000");
    assert_eq!(decimal_string(1_000_000_007), "1000000007");
    assert_eq!(decimal_string(u64::MAX), "18446744073709551615");
}

#[test]
fn decimal_notation_is_appended() {
    let mut text = "n=".to_string();
    push_decimal(&mut text, 305);
    assert_eq!(text, "n=305");
    let mut units: Vec<u16> = vec![0x20];
    push_decimal_units(&mut units, 9081);
    assert_eq!(units, vec![0x20, 0x39, 0x30, 0x38, 0x31]);
}
