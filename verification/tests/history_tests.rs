use openkdsim::history::{HitHistory, HitHistoryElt};

#[test]
fn history_reads_newest_first() {
    let mut h = HitHistory::new();
    assert_eq!(h.get(0), None);
    h.push(1, 2);
    h.push(3, 4);
    assert_eq!(h.get(0), Some(HitHistoryElt { num_wall_contacts: 3, num_floor_contacts: 4 }));
    assert_eq!(h.get(1), Some(HitHistoryElt { num_wall_contacts: 1, num_floor_contacts: 2 }));
    assert_eq!(h.get(2), None);
}

#[test]
fn history_forgets_beyond_ten_ticks() {
    let mut h = HitHistory::default();
    for i in 0..12u8 {
        h.push(i, 100 + i);
    }
    // the newest is the last pushed
    assert_eq!(h.get(0), Some(HitHistoryElt { num_wall_contacts: 11, num_floor_contacts: 111 }));
    // the tenth newest is the third pushed; the two oldest are forgotten
    assert_eq!(h.get(9), Some(HitHistoryElt { num_wall_contacts: 2, num_floor_contacts: 102 }));
    assert_eq!(h.get(10), None);
}
