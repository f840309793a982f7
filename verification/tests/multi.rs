use indicatif::{InMemoryTerm, MultiProgress, ProgressBar, Terminal};

#[test]
fn region_repaints_as_one_unit_and_keeps_indices() {
    let term = InMemoryTerm::new(80);
    let mp = MultiProgress::with_term(Terminal::InMemory(term.clone()));
    let pb1 = mp.add(ProgressBar::new(10).with_prefix("a".to_string()));
    let pb2 = mp.add(ProgressBar::new(10).with_prefix("b".to_string()));
    let pb3 = mp.add(ProgressBar::new(10).with_prefix("c".to_string()));
    assert_eq!(pb1.index(), Some(0));
    assert_eq!(pb2.index(), Some(1));
    assert_eq!(pb3.index(), Some(2));

    pb1.inc(1);
    pb2.inc(2);
    pb3.tick();
    // After any subset is updated, the region shows every occupied bar's
    // current lines in display order, and records the painted total.
    assert_eq!(mp.visible_lines(), vec!["a 1/10 ", "b 2/10 ", "c 0/10 "]);
    assert_eq!(mp.painted_line_count(), 3);

    // Removing one bar mid-sequence frees its slot without renumbering any
    // other bar's slot.
    mp.remove(&pb2);
    assert_eq!(pb1.index(), Some(0));
    assert_eq!(pb2.index(), None);
    assert_eq!(pb3.index(), Some(2));
    assert_eq!(mp.painted_line_count(), 2);

    pb3.inc(5);
    assert_eq!(mp.visible_lines(), vec!["a 1/10 ", "c 5/10 "]);
    let contents = term.contents();
    assert_eq!(contents[0], "a 1/10 ");
    assert_eq!(contents[1], "c 5/10 ");
}

#[test]
fn region_insert_honors_explicit_position() {
    let term = InMemoryTerm::new(80);
    let mp = MultiProgress::with_term(Terminal::InMemory(term.clone()));
    let first = mp.add(ProgressBar::new(4).with_prefix("x".to_string()));
    let second = mp.insert(0, ProgressBar::new(4).with_prefix("y".to_string()));
    first.inc(1);
    second.inc(2);
    // The explicitly placed bar shows first, though its slot came second.
    assert_eq!(mp.visible_lines(), vec!["y 2/4 ", "x 1/4 "]);
    assert_eq!(first.index(), Some(0));
    assert_eq!(second.index(), Some(1));
}

#[test]
fn freed_slots_are_reused_without_moving_others() {
    let term = InMemoryTerm::new(80);
    let mp = MultiProgress::with_term(Terminal::InMemory(term.clone()));
    let a = mp.add(ProgressBar::new(1));
    let b = mp.add(ProgressBar::new(1));
    let c = mp.add(ProgressBar::new(1));
    mp.remove(&b);
    let d = mp.add(ProgressBar::new(1));
    // The freed middle slot is taken over; the neighbours keep theirs.
    assert_eq!(a.index(), Some(0));
    assert_eq!(d.index(), Some(1));
    assert_eq!(c.index(), Some(2));
    assert_eq!(b.index(), None);
}
