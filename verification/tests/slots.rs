use simple_tqdm::slots::{
    clock_slot, count_slot, length_shown, percent, percent_slot, rate_slot, template, Slot,
    Snapshot,
};

fn at(position: u64, length: Option<u64>, elapsed_secs: u64, eta_secs: u64) -> Snapshot {
    Snapshot { position, length, elapsed_secs, eta_secs }
}

#[test]
fn one_of_three_is_thirty_three_percent() {
    assert_eq!(percent(1, Some(3)), Some(33));
    assert_eq!(percent_slot(1, Some(3)), " 33");
}

#[test]
fn percent_is_rounded_down_and_right_aligned() {
    assert_eq!(percent_slot(0, Some(3)), "  0");
    assert_eq!(percent_slot(2, Some(3)), " 66");
    assert_eq!(percent_slot(3, Some(3)), "100");
    assert_eq!(percent_slot(1, Some(100)), "  1");
    assert_eq!(percent_slot(99, Some(100)), " 99");
    assert_eq!(percent_slot(199, Some(200)), " 99");
    assert_eq!(percent_slot(29, Some(100)), " 29");
    assert_eq!(percent_slot(u64::MAX, Some(u64::MAX)), "100");
    assert_eq!(percent_slot(u64::MAX - 1, Some(u64::MAX)), " 99");
}

#[test]
fn percent_beyond_the_length_is_not_cut() {
    assert_eq!(percent(5, Some(3)), Some(166));
    assert_eq!(percent_slot(5, Some(3)), "166");
    assert_eq!(percent_slot(u64::MAX, Some(1)), (u64::MAX as u128 * 100).to_string());
}

#[test]
fn percent_without_a_length_is_indeterminate() {
    assert_eq!(percent(0, Some(0)), None);
    assert_eq!(percent(0, None), None);
    assert_eq!(percent(7, Some(0)), None);
    assert_eq!(percent_slot(0, Some(0)), "  0");
    assert_eq!(percent_slot(0, None), "  0");
    assert_eq!(percent_slot(7, Some(0)), "  0");
    assert_eq!(percent_slot(7, None), "  0");
}

#[test]
fn clock_shows_minutes_and_seconds() {
    assert_eq!(clock_slot(0), "00:00");
    assert_eq!(clock_slot(9), "00:09");
    assert_eq!(clock_slot(59), "00:59");
    assert_eq!(clock_slot(60), "01:00");
    assert_eq!(clock_slot(754), "12:34");
    assert_eq!(clock_slot(3599), "59:59");
}

#[test]
fn clock_has_no_hours() {
    assert_eq!(clock_slot(3600), "60:00");
    assert_eq!(clock_slot(6001), "100:01");
    assert_eq!(clock_slot(u64::MAX), format!("{}:{:02}", u64::MAX / 60, u64::MAX % 60));
}

#[test]
fn rate_is_number_unit_and_per_second() {
    assert_eq!(rate_slot("12.34", "it"), "12.34it/s");
    assert_eq!(rate_slot("0.00", "num"), "0.00num/s");
    assert_eq!(rate_slot("1.50", ""), "1.50/s");
    assert_eq!(rate_slot(&format!("{:.2}", 0.5 * 3.0), "num"), "1.50num/s");
}

#[test]
fn counts_go_through_the_scale() {
    assert_eq!(count_slot(1, 250), "250");
    assert_eq!(count_slot(2, 250), "500");
    assert_eq!(count_slot(0, 250), "0");
    assert_eq!(count_slot(-1, 250), "-250");
    assert_eq!(count_slot(i64::MAX, u64::MAX), (i64::MAX as i128 * u64::MAX as i128).to_string());
}

#[test]
fn each_slot_has_its_key() {
    assert_eq!(Slot::Percent.key(), "percent");
    assert_eq!(Slot::Elapsed.key(), "elapsed");
    assert_eq!(Slot::Eta.key(), "eta");
    assert_eq!(Slot::Position(1).key(), "pos");
    assert_eq!(Slot::Length(1).key(), "len");
    assert_eq!(Slot::Postfix(String::new()).key(), "postfix");
}

#[test]
fn every_key_stands_in_the_template() {
    let slots = [
        Slot::Percent,
        Slot::Elapsed,
        Slot::Eta,
        Slot::Position(1),
        Slot::Length(1),
        Slot::Postfix(String::new()),
    ];
    for slot in slots.iter() {
        assert!(template().contains(&format!("{{{}}}", slot.key())));
    }
}

#[test]
fn template_is_the_fixed_line() {
    assert_eq!(
        template(),
        "{prefix}{percent}|{wide_bar}| {pos}/{len} [{elapsed}<{eta}, {per_sec}{postfix}]"
    );
}

#[test]
fn slots_render_from_a_synthetic_state() {
    let state = at(1, Some(3), 61, 122);
    assert_eq!(Slot::Percent.render(&state), " 33");
    assert_eq!(Slot::Elapsed.render(&state), "01:01");
    assert_eq!(Slot::Eta.render(&state), "02:02");
    assert_eq!(Slot::Position(2).render(&state), "2");
    assert_eq!(Slot::Length(2).render(&state), "6");
    assert_eq!(Slot::Postfix(", hi".to_string()).render(&state), ", hi");
    assert_eq!(Slot::Postfix(String::new()).render(&state), "");
}

#[test]
fn length_falls_back_to_the_position() {
    let state = at(7, None, 0, 0);
    assert_eq!(Slot::Length(1).render(&state), "7");
    assert_eq!(Slot::Length(3).render(&state), "21");
    assert_eq!(Slot::Position(3).render(&state), "21");
    assert_eq!(Slot::Length(3).render(&at(7, Some(0), 0, 0)), "0");
}

#[test]
fn a_cloned_slot_renders_alike() {
    let slot = Slot::Postfix(", hi".to_string());
    let copy = slot.clone();
    let state = at(0, None, 0, 0);
    assert_eq!(slot.render(&state), copy.render(&state));
    assert_eq!(copy.key(), "postfix");
}

#[test]
fn shown_length_is_the_length_or_else_the_position() {
    assert_eq!(length_shown(&at(7, Some(10), 0, 0)), 10);
    assert_eq!(length_shown(&at(7, Some(0), 0, 0)), 0);
    assert_eq!(length_shown(&at(7, None, 0, 0)), 7);
    assert_eq!(length_shown(&at(0, None, 3, 4)), 0);
}
