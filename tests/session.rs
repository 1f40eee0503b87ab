use autosplitter::{
    add_offset, Action, PointerWidth, Cadence, Command, Event, Hop, Layout, Phase, PointerChain, Reads, Session,
    TimerState, ArrayCString, NORMAL_TICK_RATE, SLOW_TICK_RATE,
};

#[test]
fn layout_of_supported_version() {
    let l = Layout::resolve(0x400000, 0x10000000);
    assert_eq!(l.load, 0x10219658);
    assert_eq!(l.prompt, 0x1021CD6C);
    assert_eq!(l.level, 0x5C5159);
    assert_eq!(l.is_paused.base, 0x10000000);
    assert_eq!(l.is_paused.width, PointerWidth::Bit32);
    assert_eq!(l.outro.width, PointerWidth::Bit32);
    assert_eq!(l.is_paused.offsets, vec![0x218F94, 0x58]);
    assert_eq!(l.outro.offsets, vec![0x220B10, 0x4, 0x4, 0x7]);
}

#[test]
fn offsets_wrap_at_top_of_address_space() {
    assert_eq!(add_offset(u64::MAX, 2), 1);
    assert_eq!(add_offset(0x1000, 0x20), 0x1020);
}

#[test]
fn pointer_chain_hops() {
    let c = PointerChain::new(0x1000, PointerWidth::Bit32, vec![0x10, 0x4, 0x7]);
    assert_eq!(c.hop(0, c.base), Hop::Dereference(0x1010));
    assert_eq!(c.hop(1, 0x5000), Hop::Dereference(0x5004));
    assert_eq!(c.hop(2, 0x6000), Hop::Leaf(0x6007));
    assert_eq!(c.hop(3, 0x6000), Hop::Leaf(0x6000));
    let empty = PointerChain::new(0x1000, PointerWidth::Bit32, vec![]);
    assert_eq!(empty.hop(0, 0x1000), Hop::Leaf(0x1000));
}

#[test]
fn cadence_switches_only_on_change() {
    let mut c = Cadence::new();
    assert_eq!(c.rate(), NORMAL_TICK_RATE);
    assert_eq!(c.apply(false), None);
    assert_eq!(c.apply(true), Some(SLOW_TICK_RATE));
    assert_eq!(c.rate(), 30);
    assert_eq!(c.apply(true), None);
    assert_eq!(c.apply(false), Some(60));
}

#[test]
fn attach_cycle() {
    let mut s = Session::new();
    assert_eq!(s.action(), Action::WaitForProcess);
    assert_eq!(s.on_event(Event::ClientModule(Some(1))), Action::WaitForProcess);
    assert_eq!(s.on_event(Event::ProcessFound), Action::FindGameModule);
    assert_eq!(s.on_event(Event::GameModule(Some(0x400000))), Action::RetryClientModule);
    assert_eq!(s.on_event(Event::ClientModule(None)), Action::RetryClientModule);
    assert_eq!(s.on_event(Event::ClientModule(Some(0x10000000))), Action::Tick);
    match &s.phase {
        Phase::Running { layout, watchers } => {
            assert_eq!(layout.load, 0x10219658);
            assert!(watchers.load_byte.pair.is_none());
        }
        _ => panic!("not running"),
    }
    assert_eq!(s.on_event(Event::ProcessExited), Action::WaitForProcess);
    assert!(matches!(s.phase, Phase::Disconnected));
}

#[test]
fn missing_game_module_aborts() {
    let mut s = Session::new();
    s.on_event(Event::ProcessFound);
    assert_eq!(s.on_event(Event::GameModule(None)), Action::Abort);
    assert_eq!(s.on_event(Event::ProcessFound), Action::Abort);
    assert_eq!(s.on_event(Event::ProcessExited), Action::Abort);
}

#[test]
fn ticks_decide_then_refresh() {
    let mut s = Session::new();
    s.on_event(Event::ProcessFound);
    s.on_event(Event::GameModule(Some(0)));
    s.on_event(Event::ClientModule(Some(0)));
    let level = |t: &str| {
        let mut b = [0u8; 1];
        for (i, x) in t.bytes().enumerate() {
            b[i] = x;
        }
        ArrayCString::new(b)
    };
    let reads = |load: u8| Reads {
        load_byte: Some(load),
        is_paused_byte: Some(0),
        prompt_byte: Some(0),
        level: Some(level("1")),
        outro: Some(ArrayCString::new([0; 5])),
    };
    let plan = s.tick(TimerState::NotRunning, false);
    assert_eq!(plan.new_rate, None);
    assert!(plan.commands.is_empty());
    s.refresh(reads(3));
    assert!(s.tick(TimerState::NotRunning, false).commands.is_empty());
    s.refresh(reads(6));
    let plan = s.tick(TimerState::NotRunning, true);
    assert_eq!(plan.new_rate, Some(30));
    assert_eq!(plan.commands, vec![Command::Start]);
    s.refresh(reads(6));
    assert!(s.tick(TimerState::Running, true).commands == vec![Command::ResumeGameTime]);
    s.on_event(Event::ProcessExited);
    let plan = s.tick(TimerState::Running, false);
    assert_eq!(plan.new_rate, None);
    assert!(plan.commands.is_empty());
    assert!(s.cadence.slow);
}
