//! The sexagenary cycle.

use lunar_calendar::sexagenary::{DiZhi, GanZhi, TianGan};

fn pair(gan: TianGan, zhi: DiZhi) -> GanZhi {
    GanZhi::new(&gan, &zhi).unwrap()
}

#[test]
fn the_cycle_begins_with_jia_zi_and_ends_with_gui_hai() {
    assert_eq!(GanZhi::from_index(0), pair(TianGan::Jia, DiZhi::Zi));
    assert_eq!(GanZhi::from_index(1), pair(TianGan::Yi, DiZhi::Chou));
    assert_eq!(GanZhi::from_index(10), pair(TianGan::Jia, DiZhi::Xu));
    assert_eq!(GanZhi::from_index(12), pair(TianGan::Bing, DiZhi::Zi));
    assert_eq!(GanZhi::from_index(37), pair(TianGan::Xin, DiZhi::Chou));
    assert_eq!(GanZhi::from_index(59), pair(TianGan::Gui, DiZhi::Hai));
    assert_eq!(GanZhi::from_index(60), GanZhi::from_index(0));
    assert_eq!(GanZhi::from_index(-1), GanZhi::from_index(59));
    assert_eq!(GanZhi::from_index(0).name(), "甲子");
    assert_eq!(GanZhi::from_index(37).name(), "辛丑");
    assert_eq!(GanZhi::from_index(59).name(), "癸亥");
}

#[test]
fn every_place_has_its_own_pair_and_comes_back_from_it() {
    let mut seen = Vec::new();
    for i in 0..60 {
        let g = GanZhi::from_index(i);
        assert_eq!(g.ordinal() as i64, i);
        assert_eq!(g.gan().ordinal() as i64, i % 10);
        assert_eq!(g.zhi().ordinal() as i64, i % 12);
        assert!(!seen.contains(&g));
        seen.push(g);
    }
}

#[test]
fn a_stem_and_a_branch_of_unlike_parity_make_no_pair() {
    assert_eq!(GanZhi::new(&TianGan::Jia, &DiZhi::Chou), None);
    assert_eq!(GanZhi::new(&TianGan::Yi, &DiZhi::Zi), None);
    assert!(GanZhi::new(&TianGan::Yi, &DiZhi::Hai).is_some());
    let mut pairs = 0;
    for s in 0..10 {
        for b in 0..12 {
            if GanZhi::new(&TianGan::from_index(s), &DiZhi::from_index(b)).is_some() {
                pairs += 1;
            }
        }
    }
    assert_eq!(pairs, 60);
}

#[test]
fn offsets_compose() {
    for i in [0i64, 1, 17, 37, 59] {
        let label = GanZhi::from_index(i);
        for a in [-121i64, -60, -7, 0, 1, 13, 59, 60, 158, 2022 - 1864] {
            for b in [-1000i64, -1, 0, 5, 47, 60, 61] {
                assert_eq!(label.plus(a).plus(b), label.plus(a + b), "{} {} {}", i, a, b);
                assert_eq!(label.gan().plus(a).plus(b), label.gan().plus(a + b));
                assert_eq!(label.zhi().plus(a).plus(b), label.zhi().plus(a + b));
            }
        }
    }
}

#[test]
fn an_offset_moves_the_place_by_as_much_round_the_cycle() {
    assert_eq!(GanZhi::from_index(0).plus(158), GanZhi::from_index(38));
    assert_eq!(GanZhi::from_index(0).plus(158).name(), "壬寅");
    assert_eq!(GanZhi::from_index(59).plus(1), GanZhi::from_index(0));
    assert_eq!(GanZhi::from_index(0).plus(-1), GanZhi::from_index(59));
    assert_eq!(GanZhi::from_index(5).plus(60), GanZhi::from_index(5));
    assert_eq!(GanZhi::from_index(5).plus(i64::MAX), GanZhi::from_index(5 + 7));
    assert_eq!(GanZhi::from_index(5).plus(i64::MIN), GanZhi::from_index(5 - 8));
    assert_eq!(TianGan::Gui.plus(1), TianGan::Jia);
    assert_eq!(TianGan::Jia.plus(-1), TianGan::Gui);
    assert_eq!(DiZhi::Hai.plus(1), DiZhi::Zi);
    assert_eq!(DiZhi::Zi.plus(-13), DiZhi::Hai);
}

#[test]
fn a_difference_is_the_offset_that_leads_there() {
    for i in 0..60i64 {
        for j in [0i64, 7, 31, 59] {
            let a = GanZhi::from_index(i);
            let b = GanZhi::from_index(j);
            let d = a.minus(&b);
            assert_eq!(d as i64, (i - j).rem_euclid(60));
            assert_eq!(b.plus(d as i64), a);
        }
    }
    assert_eq!(DiZhi::Zi.minus(&DiZhi::Yin), 10);
    assert_eq!(DiZhi::Yin.minus(&DiZhi::Yin), 0);
    assert_eq!(DiZhi::Chou.minus(&DiZhi::Yin), 11);
    assert_eq!(TianGan::Jia.minus(&TianGan::Gui), 1);
    assert_eq!(TianGan::Gui.minus(&TianGan::Jia), 9);
}

#[test]
fn stems_and_branches_have_their_names() {
    let stems: Vec<String> = (0..10).map(|i| TianGan::from_index(i).name()).collect();
    assert_eq!(stems.concat(), "甲乙丙丁戊己庚辛壬癸");
    let branches: Vec<String> = (0..12).map(|i| DiZhi::from_index(i).name()).collect();
    assert_eq!(branches.concat(), "子丑寅卯辰巳午未申酉戌亥");
}
