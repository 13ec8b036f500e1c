use lazy_catch::val::SyncVal;
use lazy_catch::val::Val;
use lazy_catch::System;
use lazy_catch::SystemNode;

#[test]
fn end_to_end() {
    let mut s = System::new(0);
    assert_eq!(s.version().v, 1);
    let mut x = s.var(0i32);
    let mut a: Val<i32> = s.val();

    a.refresh(&s, |mut u| {
        let v = *u.get(&x);
        u.update(move || v + 1)
    });
    assert_eq!(*s.get(&a), 1);

    let m = s.modify();
    assert_eq!(m.version().v, 2);
    x.modify(&m, 10);

    a.refresh(&s, |mut u| {
        let v = *u.get(&x);
        u.update(move || v + 1)
    });
    assert_eq!(*s.get(&a), 11);
    assert_eq!(s.version().v, 2);
}

#[test]
fn memoization_runs_once_per_version() {
    let mut s = System::new(30);
    let mut x = s.var(1i32);
    let mut a: Val<i32> = s.val();
    let mut runs = 0;

    for _ in 0..3 {
        a.refresh(&s, |mut u| {
            runs += 1;
            let v = *u.get(&x);
            u.update(move || v * 2)
        });
    }
    assert_eq!(runs, 1);
    assert_eq!(*s.get(&a), 2);

    let m = s.modify();
    x.modify(&m, 5);
    for _ in 0..3 {
        a.refresh(&s, |mut u| {
            runs += 1;
            let v = *u.get(&x);
            u.update(move || v * 2)
        });
    }
    assert_eq!(runs, 2);
    assert_eq!(*s.get(&a), 10);
}

#[test]
fn early_cutoff_keeps_version_and_value() {
    let mut s = System::new(31);
    let x = s.var(7i32);
    let mut a: Val<i32> = s.val();
    let mut b: Val<i32> = s.val();
    let mut a_runs = 0;
    let mut a_produced = 0;
    let mut b_produced = 0;

    a.refresh(&s, |mut u| {
        a_runs += 1;
        let v = *u.get(&x);
        u.update(|| {
            a_produced += 1;
            v + 1
        })
    });
    b.refresh(&s, |mut u| {
        let v = *u.get(&a);
        u.update(|| {
            b_produced += 1;
            v * 10
        })
    });
    assert_eq!((a_runs, a_produced, b_produced), (1, 1, 1));
    assert_eq!(*s.get(&b), 80);

    let m = s.modify();
    drop(m);

    a.refresh(&s, |mut u| {
        a_runs += 1;
        let v = *u.get(&x);
        u.update(|| {
            a_produced += 1;
            v + 1
        })
    });
    assert_eq!(a_runs, 2);
    assert_eq!(a_produced, 1);
    assert_eq!(a.get_value(&s).0.v, 1);

    b.refresh(&s, |mut u| {
        let v = *u.get(&a);
        u.update(|| {
            b_produced += 1;
            v * 10
        })
    });
    assert_eq!(b_produced, 1);
    assert_eq!(*s.get(&b), 80);
    assert_eq!(b.get_value(&s).0.v, 1);
}

#[test]
fn update_with_old_recomputes_incrementally() {
    let mut s = System::new(32);
    let mut x = s.var(10i64);
    let mut acc: Val<i64> = s.val();

    acc.refresh(&s, |mut u| {
        let v = *u.get(&x);
        u.update_with_old(move |old| old.unwrap_or(0) + v)
    });
    assert_eq!(*s.get(&acc), 10);

    let m = s.modify();
    x.modify(&m, 5);
    acc.refresh(&s, |mut u| {
        let v = *u.get(&x);
        u.update_with_old(move |old| old.unwrap_or(0) + v)
    });
    assert_eq!(*s.get(&acc), 15);

    let m2 = s.modify();
    drop(m2);
    acc.refresh(&s, |mut u| {
        let v = *u.get(&x);
        u.update_with_old(move |old| old.unwrap_or(0) + v)
    });
    assert_eq!(*s.get(&acc), 15);
}

#[test]
fn sync_val_follows_the_same_contract() {
    let mut s = System::new(33);
    let mut x = s.var(0i32);
    let mut b: SyncVal<i32> = s.sync_val();
    let mut runs = 0;

    for _ in 0..2 {
        b.refresh(&s, |mut u| {
            runs += 1;
            let v = *u.get(&x);
            u.update(move || v + 2)
        });
    }
    assert_eq!(runs, 1);
    assert_eq!(*s.get(&b), 2);

    let m = s.modify();
    x.modify(&m, 10);
    b.refresh(&s, |mut u| {
        runs += 1;
        let v = *u.get(&x);
        u.update(move || v + 2)
    });
    assert_eq!(runs, 2);
    let (ver, value) = b.get_value(&s);
    assert_eq!(ver.v, 2);
    assert_eq!(*value, 12);
}

#[test]
fn derived_node_reads_through_a_shared_cell() {
    let mut s = System::new(34);
    let arc_x = std::sync::Arc::new(s.var(1i32));
    let mut a: Val<i32> = s.val();
    let arc_x_clone = arc_x.clone();
    a.refresh(&s, |mut u| {
        let v = *u.get(&*arc_x_clone);
        u.update(move || v * 3)
    });
    assert_eq!(*s.get(&a), 3);
    assert_eq!(*s.get(&*arc_x), 1);
}
