use fillrate::plan::{sample_commands, GlCommand, SampleSetup, ScissorRect};
use fillrate::timing::{summarize, trimmed_total, Timing};
use fillrate::{Config, Flags, ScenarioKind};

#[test]
fn trimmed_total_drops_both_ends() {
    let results = vec![1000, 20, 30, 40, 5000];
    assert_eq!(trimmed_total(&results, 1), Some(90));
    assert_eq!(trimmed_total(&results, 0), Some(6090));
    assert_eq!(trimmed_total(&results, 2), Some(30));
}

#[test]
fn trimmed_total_of_empty_window_is_zero() {
    let results = vec![7, 9];
    assert_eq!(trimmed_total(&results, 1), Some(0));
    let none: Vec<u32> = Vec::new();
    assert_eq!(trimmed_total(&none, 0), Some(0));
}

#[test]
fn trimmed_total_of_large_results() {
    let results = vec![u32::MAX, u32::MAX, u32::MAX];
    assert_eq!(trimmed_total(&results, 0), Some(3 * u32::MAX as usize));
}

#[test]
fn summarize_means_over_kept_samples() {
    let results = vec![10, 20, 30, 40];
    let t = summarize(&results, 1, 1, 1000).unwrap();
    assert_eq!(t, Timing { fullscreen_ns: 25, megapixel_ns: 25000 });
    assert_eq!(t.megapixel_micros(), 25);
}

#[test]
fn summarize_divides_by_instances() {
    let results = vec![999, 4_000_000, 6_000_000, 999];
    let t = summarize(&results, 1, 20, 2_073_600).unwrap();
    assert_eq!(t.fullscreen_ns, 250_000);
    assert_eq!(t.megapixel_ns, 250_000 * 1_000_000 / 2_073_600);
    assert_eq!(t.megapixel_micros(), 120);
}

#[test]
fn summarize_truncates_divisions() {
    let results = vec![10, 11, 12];
    let t = summarize(&results, 0, 2, 3).unwrap();
    assert_eq!(t.fullscreen_ns, 5);
    assert_eq!(t.megapixel_ns, 1_666_666);
    assert_eq!(t.megapixel_micros(), 1666);
}

#[test]
fn summarize_reports_overflowing_draw_count() {
    let results = vec![1, 2];
    assert_eq!(summarize(&results, 0, usize::MAX, 1), None);
}

#[test]
fn flags_contain_their_bits() {
    assert!(Flags::clear().contains(Flags::clear()));
    assert!(!Flags::clear().contains(Flags::draw()));
    assert!(Flags::draw().contains(Flags::draw()));
    assert!(!Flags::draw().contains(Flags::clear()));
    let both = Flags { bits: 3 };
    assert!(both.contains(Flags::clear()));
    assert!(both.contains(Flags::draw()));
}

fn setup(bits: u32, scissor: Option<ScissorRect>) -> SampleSetup {
    SampleSetup { clear_depth: true, instances: 4, flags: Flags { bits }, scissor }
}

#[test]
fn draw_flag_times_the_draw() {
    let cmds = sample_commands(&setup(2, None), 9);
    assert_eq!(
        cmds,
        vec![
            GlCommand::Clear { depth: true },
            GlCommand::BeginTimer { query: 9 },
            GlCommand::DrawFullScreen { instances: 4 },
            GlCommand::EndTimer,
        ]
    );
}

#[test]
fn clear_flag_times_the_clear() {
    let cmds = sample_commands(&setup(1, None), 3);
    assert_eq!(
        cmds,
        vec![
            GlCommand::BeginTimer { query: 3 },
            GlCommand::Clear { depth: true },
            GlCommand::EndTimer,
            GlCommand::DrawFullScreen { instances: 4 },
        ]
    );
}

#[test]
fn both_flags_time_clear_and_draw() {
    let cmds = sample_commands(&setup(3, None), 5);
    assert_eq!(
        cmds,
        vec![
            GlCommand::BeginTimer { query: 5 },
            GlCommand::Clear { depth: true },
            GlCommand::DrawFullScreen { instances: 4 },
            GlCommand::EndTimer,
        ]
    );
}

#[test]
fn no_flags_time_nothing() {
    let cmds = sample_commands(&setup(0, None), 5);
    assert_eq!(
        cmds,
        vec![
            GlCommand::Clear { depth: true },
            GlCommand::BeginTimer { query: 5 },
            GlCommand::EndTimer,
            GlCommand::DrawFullScreen { instances: 4 },
        ]
    );
}

#[test]
fn scissored_clear_is_wrapped_in_scissor_test() {
    let rect = ScissorRect::quarter_screen(1920, 1080);
    let cmds = sample_commands(&setup(1, Some(rect)), 2);
    assert_eq!(
        cmds,
        vec![
            GlCommand::BeginTimer { query: 2 },
            GlCommand::EnableScissor,
            GlCommand::Scissor { rect: ScissorRect { x: 1, y: 1, width: 960, height: 540 } },
            GlCommand::Clear { depth: true },
            GlCommand::DisableScissor,
            GlCommand::EndTimer,
            GlCommand::DrawFullScreen { instances: 4 },
        ]
    );
}

#[test]
fn quarter_screen_of_largest_size_fits() {
    let rect = ScissorRect::quarter_screen(u32::MAX, 3);
    assert_eq!(rect, ScissorRect { x: 1, y: 1, width: i32::MAX, height: 1 });
}

#[test]
fn standard_config_values() {
    let c = Config::standard();
    assert_eq!(c.num_queries, 200);
    assert_eq!(c.warmup_frames, 40);
    assert_eq!(c.num_rejects, 20);
    assert!(!c.clear_scissored);
    assert_eq!(c.scissor(800, 600), None);
}

#[test]
fn scissored_config_gives_quarter_rect() {
    let c = Config { clear_scissored: true, ..Config::standard() };
    assert_eq!(c.scissor(800, 600), Some(ScissorRect { x: 1, y: 1, width: 400, height: 300 }));
}

#[test]
fn scenarios_run_in_order() {
    let c = Config::standard();
    let s = c.scenarios(800, 600);
    assert_eq!(s.len(), 3);
    assert_eq!(s[0].kind, ScenarioKind::ColorAndDepth);
    assert_eq!(s[0].num_draws, 1);
    assert!(s[0].setup.clear_depth);
    assert_eq!(s[0].setup.flags, Flags::draw());
    assert_eq!(s[1].kind, ScenarioKind::DepthRejected);
    assert_eq!(s[1].num_draws, 20);
    assert_eq!(s[1].setup.instances, 20);
    assert!(!s[1].setup.clear_depth);
    assert_eq!(s[1].setup.flags, Flags::draw());
    assert_eq!(s[2].kind, ScenarioKind::ColorClear);
    assert_eq!(s[2].num_draws, 20);
    assert_eq!(s[2].setup.flags, Flags::clear());
    assert!(s.iter().all(|x| x.setup.scissor.is_none()));
}

#[test]
fn scenario_labels() {
    assert_eq!(ScenarioKind::ColorAndDepth.label(), "color and depth");
    assert_eq!(ScenarioKind::DepthRejected.label(), "depth rejected");
    assert_eq!(ScenarioKind::ColorClear.label(), "color clear");
}
