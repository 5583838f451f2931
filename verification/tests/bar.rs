use indicatif::{InMemoryTerm, ParallelProgressIterator, ProgressBar, ProgressDrawTarget};
use rayon::iter::{IntoParallelIterator, ParallelIterator};
use simple_tqdm::bar::{glyphs_fit, progress_bar, progress_bar_at, style, BarError};
use simple_tqdm::config::Config;
use simple_tqdm::scale::Scale;
use std::sync::atomic::{AtomicU64, Ordering};

fn on_screen(bar: &ProgressBar) -> InMemoryTerm {
    let term = InMemoryTerm::new(4, 60);
    bar.set_draw_target(ProgressDrawTarget::term_like(Box::new(term.clone())));
    term
}

#[test]
fn default_bar_is_made() {
    let bar = progress_bar(Config::new(), 250).unwrap();
    assert_eq!(bar.length(), Some(250));
    assert_eq!(bar.position(), 0);
    assert_eq!(bar.prefix(), "");
    assert!(!bar.is_finished());
}

#[test]
fn bar_carries_prefix_and_length() {
    let config = Config::new().with_desc("[]").with_total(Scale::Integer(500));
    let bar = progress_bar(config, 250).unwrap();
    assert_eq!(bar.length(), Some(500));
    assert_eq!(bar.prefix(), "[]: ");
}

#[test]
fn total_is_scaled_into_the_length() {
    let config = Config::new().with_total(Scale::Integer(500)).with_scale(Scale::Integer(2));
    assert_eq!(progress_bar(config, 250).unwrap().length(), Some(1000));
}

#[test]
fn sequential_wrap_counts_every_item() {
    let n: usize = 137;
    let bar = progress_bar(Config::new(), n).unwrap();
    let mut seen = 0;
    for _ in bar.wrap_iter(0..n) {
        seen += 1;
    }
    assert_eq!(seen, n);
    assert_eq!(bar.position(), n as u64);
    assert_eq!(bar.length(), Some(n as u64));
    assert!(bar.is_finished());
}

#[test]
fn sequential_wrap_counts_only_what_was_taken() {
    let bar = progress_bar(Config::new(), 10).unwrap();
    let mut wrapped = bar.wrap_iter(0..10);
    assert_eq!(wrapped.next(), Some(0));
    assert_eq!(wrapped.next(), Some(1));
    assert_eq!(wrapped.next(), Some(2));
    assert_eq!(bar.position(), 3);
    assert!(!bar.is_finished());
}

#[test]
fn parallel_wrap_counts_every_item_once() {
    let m: u64 = 20_000;
    let pool = rayon::ThreadPoolBuilder::new().num_threads(4).build().unwrap();
    for _ in 0..5 {
        let bar = progress_bar(Config::new(), m as usize).unwrap();
        let sum = AtomicU64::new(0);
        pool.install(|| {
            (0..m).into_par_iter().progress_with(bar.clone()).for_each(|i| {
                sum.fetch_add(i, Ordering::Relaxed);
            });
        });
        assert_eq!(sum.load(Ordering::Relaxed), m * (m - 1) / 2);
        assert_eq!(bar.position(), m);
        assert_eq!(bar.length(), Some(m));
    }
}

#[test]
fn bars_of_cloned_configurations_do_not_share_a_count() {
    let config = Config::new().with_progress_chars(">= ");
    let first = progress_bar(config.clone(), 5).unwrap();
    let second = progress_bar(config, 5).unwrap();
    first.inc(3);
    assert_eq!(first.position(), 3);
    assert_eq!(second.position(), 0);
}

#[test]
fn disabled_bar_still_counts() {
    let bar = progress_bar(Config::new().with_disable(true), 5).unwrap();
    assert!(bar.is_hidden());
    for _ in bar.wrap_iter(0..5) {}
    assert_eq!(bar.position(), 5);
    assert_eq!(bar.length(), Some(5));
}

#[test]
fn disabled_bar_draws_nothing_where_an_enabled_one_draws() {
    let shown = progress_bar(Config::new(), 3).unwrap();
    let term = on_screen(&shown);
    shown.inc(1);
    shown.abandon();
    assert!(term.contents().contains("1/3"));
    let hidden = progress_bar(Config::new().with_disable(true), 3).unwrap();
    hidden.inc(1);
    hidden.abandon();
    assert!(hidden.is_hidden());
    assert_eq!(hidden.position(), 1);
}

#[test]
fn line_is_drawn_from_the_slots() {
    let config = Config::new().with_desc("[]").with_postfix("hi").with_progress_chars(">= ");
    let bar = progress_bar(config, 3).unwrap();
    let term = on_screen(&bar);
    bar.inc(1);
    bar.abandon();
    let line = term.contents();
    assert!(line.starts_with("[]:  33|"), "{}", line);
    assert!(line.contains("| 1/3 [00:00<00:00, "), "{}", line);
    assert!(line.ends_with("/s, hi]"), "{}", line);
    assert!(line.contains('>') || line.contains('='), "{}", line);
}

#[test]
fn counts_on_the_line_are_scaled() {
    let bar = progress_bar(Config::new().with_scale(Scale::Integer(3)), 4).unwrap();
    let term = on_screen(&bar);
    bar.inc(2);
    bar.abandon();
    let line = term.contents();
    assert!(line.starts_with(" 50|"), "{}", line);
    assert!(line.contains("| 6/12 ["), "{}", line);
}

#[test]
fn left_bar_stays_after_an_early_stop() {
    let bar = progress_bar(Config::new().with_leave(true), 10).unwrap();
    let term = on_screen(&bar);
    let mut wrapped = bar.wrap_iter(0..10);
    wrapped.next();
    wrapped.next();
    drop(bar);
    drop(wrapped);
    let line = term.contents();
    assert!(line.starts_with("100|"), "{}", line);
    assert!(line.contains("| 10/10 ["), "{}", line);
}

#[test]
fn cleared_bar_is_gone_after_an_early_stop() {
    let bar = progress_bar(Config::new().with_leave(false), 10).unwrap();
    let term = on_screen(&bar);
    let mut wrapped = bar.wrap_iter(0..10);
    wrapped.next();
    wrapped.next();
    let weak = bar.downgrade();
    drop(bar);
    assert!(!weak.upgrade().unwrap().is_finished());
    drop(wrapped);
    assert!(weak.upgrade().is_none());
    assert_eq!(term.contents(), "");
}

#[test]
fn cleared_bar_finishes_once_at_the_end() {
    let bar = progress_bar(Config::new().with_leave(false), 3).unwrap();
    let term = on_screen(&bar);
    let mut wrapped = bar.wrap_iter(0..3);
    while wrapped.next().is_some() {}
    assert!(bar.is_finished());
    assert_eq!(term.contents(), "");
    assert_eq!(wrapped.next(), None);
    assert!(bar.is_finished());
    assert_eq!(bar.position(), 3);
    drop(wrapped);
    drop(bar);
    assert_eq!(term.contents(), "");
}

#[test]
fn glyphs_need_two_of_one_width() {
    assert!(glyphs_fit("█▉▊▋▌▍▎▏ "));
    assert!(glyphs_fit(">= "));
    assert!(glyphs_fit("#-"));
    assert!(!glyphs_fit(""));
    assert!(!glyphs_fit("#"));
    assert!(!glyphs_fit("a世"));
    assert!(glyphs_fit("世界"));
}

#[test]
fn unfit_glyphs_give_an_error() {
    assert_eq!(progress_bar(Config::new().with_progress_chars("#"), 3).err(), Some(BarError::Glyphs));
    assert_eq!(
        progress_bar(Config::new().with_progress_chars("a世"), 3).err(),
        Some(BarError::Glyphs)
    );
    assert_eq!(style(Scale::Integer(1), "", "").err(), Some(BarError::Glyphs));
    assert!(style(Scale::Integer(1), "", "#-").is_ok());
}

#[test]
fn a_double_in_the_length_gives_an_error() {
    let half = Scale::Float(0.5f64.to_bits());
    let config = Config::new().with_total(Scale::Integer(500)).with_scale(half);
    assert_eq!(progress_bar(config, 250).err(), Some(BarError::FloatLength));
    let config = Config::new().with_total(half);
    assert_eq!(progress_bar(config, 250).err(), Some(BarError::FloatLength));
    assert!(progress_bar(Config::new().with_scale(half), 250).is_ok());
}

#[test]
fn total_500_at_scale_one_half() {
    let scale: f64 = 0.5;
    let total: f64 = 500.0;
    let config = Config::new()
        .with_total(Scale::Integer(500))
        .with_unit("num")
        .with_scale(Scale::Float(scale.to_bits()));
    let length = (total * scale) as u64;
    let bar = progress_bar_at(&config, length).unwrap();
    for _ in bar.wrap_iter(0..250) {}
    assert_eq!(bar.length(), Some(250));
    assert_eq!(bar.position(), 250);
    assert_eq!(config.unit_scale.count_text(250), None);
    assert_eq!(format!("{:?}", scale * bar.length().unwrap() as f64), "125.0");
    assert_eq!(
        simple_tqdm::slots::rate_slot(&format!("{:.2}", scale * 3.0), &config.unit),
        "1.50num/s"
    );
}

#[test]
fn a_refused_template_gives_an_error() {
    let mut planned = simple_tqdm::plan::style_plan(Scale::Integer(1), "", "#-");
    planned.template = "{:".to_string();
    assert_eq!(simple_tqdm::bar::style_from(&planned).err(), Some(BarError::Template));
    planned.progress_chars = "#".to_string();
    assert_eq!(simple_tqdm::bar::style_from(&planned).err(), Some(BarError::Template));
    let mut planned = simple_tqdm::plan::plan(&Config::new(), 3);
    planned.style.template = "}x".to_string();
    assert_eq!(simple_tqdm::bar::bar_from(planned).err(), Some(BarError::Template));
}

#[test]
fn a_bar_from_a_plan_of_ones_own() {
    let mut planned = simple_tqdm::plan::plan(&Config::new().with_prefix("p"), 4);
    planned.style.template = "{prefix}:{pos}/{len}:{percent}".to_string();
    planned.length = 8;
    let bar = simple_tqdm::bar::bar_from(planned).unwrap();
    let term = on_screen(&bar);
    bar.inc(2);
    bar.abandon();
    assert_eq!(term.contents(), "p:2/8: 25");
}

#[test]
fn digits_in_a_template_are_found() {
    assert!(simple_tqdm::bar::has_no_digit(simple_tqdm::slots::template()));
    assert!(simple_tqdm::bar::has_no_digit(""));
    assert!(simple_tqdm::bar::has_no_digit("{pos}/{len}"));
    assert!(!simple_tqdm::bar::has_no_digit("{bar:40}"));
    assert!(!simple_tqdm::bar::has_no_digit("0"));
    assert!(!simple_tqdm::bar::has_no_digit("x9"));
}
