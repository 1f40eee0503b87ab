use autosplitter::{
    is_loading, split, start, tick_commands, Command, LevelText, OutroText, Reads, TimerState,
    Watchers, ArrayCString,
};

fn level(s: &str) -> LevelText {
    let mut bytes = [0u8; 1];
    for (i, b) in s.bytes().enumerate() {
        bytes[i] = b;
    }
    ArrayCString::new(bytes)
}

fn outro(s: &str) -> OutroText {
    let mut bytes = [0u8; 5];
    for (i, b) in s.bytes().enumerate() {
        bytes[i] = b;
    }
    ArrayCString::new(bytes)
}

fn reads(load: u8, lvl: &str) -> Reads {
    Reads {
        load_byte: Some(load),
        is_paused_byte: Some(0),
        prompt_byte: Some(0),
        level: Some(level(lvl)),
        outro: Some(outro("")),
    }
}

fn flags(is_paused: u8, load: u8, prompt: u8) -> Reads {
    Reads {
        load_byte: Some(load),
        is_paused_byte: Some(is_paused),
        prompt_byte: Some(prompt),
        level: Some(level("1")),
        outro: Some(outro("")),
    }
}

#[test]
fn start_fires_on_activation_edge_only() {
    let mut w = Watchers::new();
    w.refresh(reads(3, "1"));
    assert!(!start(&w));
    w.refresh(reads(6, "1"));
    assert!(start(&w));
    w.refresh(reads(6, "1"));
    assert!(!start(&w));
}

#[test]
fn start_needs_a_level() {
    let mut w = Watchers::new();
    w.refresh(reads(3, ""));
    w.refresh(reads(6, ""));
    assert!(!start(&w));
}

#[test]
fn start_ignores_other_edges() {
    let mut w = Watchers::new();
    w.refresh(reads(1, "1"));
    w.refresh(reads(6, "1"));
    assert!(!start(&w));
}

#[test]
fn split_once_per_level_change() {
    let mut w = Watchers::new();
    w.refresh(reads(0, "1"));
    assert!(!split(&w));
    w.refresh(reads(0, "2"));
    assert!(split(&w));
    w.refresh(reads(0, "2"));
    assert!(!split(&w));
    w.refresh(reads(0, ""));
    assert!(!split(&w));
    w.refresh(reads(0, "3"));
    assert!(split(&w));
}

#[test]
fn split_once_when_outro_ends() {
    let mut w = Watchers::new();
    let mut r = reads(0, "9");
    w.refresh(r);
    r.outro = Some(outro("Outro"));
    w.refresh(r);
    assert!(!split(&w));
    w.refresh(r);
    assert!(!split(&w));
    r.outro = Some(outro(""));
    w.refresh(r);
    assert!(split(&w));
    w.refresh(r);
    assert!(!split(&w));
}

#[test]
fn loading_unknown_until_first_refresh() {
    let mut w = Watchers::new();
    assert_eq!(is_loading(&w), None);
    w.refresh(Reads { load_byte: Some(0), is_paused_byte: None, prompt_byte: Some(0), level: None, outro: None });
    assert_eq!(is_loading(&w), Some(false));
    w.refresh(Reads { load_byte: Some(1), is_paused_byte: None, prompt_byte: Some(0), level: None, outro: None });
    assert_eq!(is_loading(&w), Some(true));
    w.refresh(Reads { load_byte: Some(1), is_paused_byte: Some(1), prompt_byte: None, level: None, outro: None });
    assert_eq!(is_loading(&w), Some(true));
}

#[test]
fn failed_load_read_counts_as_loading() {
    let mut w = Watchers::new();
    w.refresh(flags(0, 0, 0));
    assert_eq!(is_loading(&w), Some(false));
    let mut r = flags(0, 0, 0);
    r.load_byte = None;
    w.refresh(r);
    assert_eq!(is_loading(&w), Some(true));
    let mut all_failed = Watchers::new();
    all_failed.refresh(Reads { load_byte: None, is_paused_byte: None, prompt_byte: None, level: None, outro: None });
    assert_eq!(is_loading(&all_failed), Some(true));
    assert!(all_failed.level.pair.is_some() && all_failed.outro.pair.is_some());
    assert!(all_failed.activation.pair.is_some());
}

#[test]
fn loading_formula_keeps_its_grouping() {
    let cases: [((u8, u8, u8), bool); 8] = [
        ((1, 1, 0), true),
        ((1, 1, 1), false),
        ((0, 1, 0), false),
        ((0, 3, 0), true),
        ((0, 3, 1), true),
        ((1, 0, 0), false),
        ((1, 6, 0), false),
        ((0, 0, 0), false),
    ];
    for ((p, l, q), expected) in cases {
        let mut w = Watchers::new();
        w.refresh(flags(p, l, q));
        assert_eq!(is_loading(&w), Some(expected), "flags {p} {l} {q}");
    }
}

#[test]
fn level_sequence_through_ticks() {
    let levels = ["", "1", "1", "2"];
    let loads = [3u8, 6, 6, 6];
    let mut w = Watchers::new();
    let mut timer = TimerState::NotRunning;
    let mut issued = Vec::new();
    for tick in 0..4 {
        w.refresh(reads(loads[tick], levels[tick]));
        let commands = tick_commands(timer, &w);
        if commands.contains(&Command::Start) {
            timer = TimerState::Running;
        }
        issued.push(commands);
    }
    assert_eq!(issued[0], vec![]);
    assert_eq!(issued[1], vec![Command::Start]);
    assert_eq!(issued[2], vec![Command::ResumeGameTime]);
    assert_eq!(issued[3], vec![Command::ResumeGameTime, Command::Split]);
    // Taken alone, the predicate sees the first level as a change too.
    let mut v = Watchers::new();
    v.refresh(reads(0, ""));
    v.refresh(reads(0, "1"));
    assert!(split(&v));
}

#[test]
fn load_byte_sequence_pauses_then_resumes() {
    let sequence = [1u8, 1, 3, 0, 0];
    let mut w = Watchers::new();
    let mut issued = Vec::new();
    let mut idle = Vec::new();
    for load in sequence {
        w.refresh(flags(1, load, 0));
        issued.push(tick_commands(TimerState::Running, &w));
        idle.push(tick_commands(TimerState::NotRunning, &w));
    }
    let pause = vec![Command::PauseGameTime];
    let resume = vec![Command::ResumeGameTime];
    assert_eq!(issued, vec![pause.clone(), pause.clone(), pause, resume.clone(), resume]);
    assert!(idle.iter().all(|c| c.is_empty()));
    let mut paused = Watchers::new();
    paused.refresh(flags(1, 1, 0));
    assert_eq!(tick_commands(TimerState::Paused, &paused), vec![Command::PauseGameTime]);
    assert_eq!(tick_commands(TimerState::Ended, &paused), vec![]);
}

#[test]
fn failed_reads_fire_nothing() {
    let failed = Reads { load_byte: None, is_paused_byte: None, prompt_byte: None, level: None, outro: None };
    let mut w = Watchers::new();
    w.refresh(reads(3, "1"));
    w.refresh(failed);
    assert!(!start(&w));
    assert!(!split(&w));
    // The activation cell's fallback is no half of a start edge.
    w.refresh(reads(6, "1"));
    assert!(!start(&w));
    let mut fresh = Watchers::new();
    fresh.refresh(failed);
    assert!(!start(&fresh));
    assert!(!split(&fresh));
    fresh.refresh(reads(6, "1"));
    assert!(!start(&fresh));
}

#[test]
fn failed_level_read_fires_no_start() {
    let mut w = Watchers::new();
    w.refresh(reads(3, "1"));
    let mut r = reads(6, "1");
    r.level = None;
    w.refresh(r);
    assert!(!start(&w));
    assert!(!split(&w));
}

#[test]
fn failed_load_read_breaks_no_edge_into_start() {
    let mut w = Watchers::new();
    w.refresh(reads(3, "1"));
    let mut r = reads(5, "1");
    r.load_byte = None;
    w.refresh(r);
    w.refresh(reads(6, "1"));
    assert!(!start(&w));
}

#[test]
fn failed_outro_read_fires_no_split() {
    let mut w = Watchers::new();
    let mut r = reads(0, "9");
    r.outro = Some(outro("Outro"));
    w.refresh(r);
    r.outro = None;
    w.refresh(r);
    assert!(!split(&w));
    assert!(w.outro.pair.unwrap().current.matches(b"Outro"));
}
