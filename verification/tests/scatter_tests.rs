use rocket_planets::geom::Vec2i;
use rocket_planets::scatter::{house_attempt, tree_attempt, House, Planet, Tree};

#[test]
fn bare_planet_has_no_scenery() {
    let pos = Vec2i::new(0, -10_000_000);
    let p = Planet::new(10_000_000, pos, false, false);
    assert_eq!(p.radius, 10_000_000);
    assert_eq!(p.pos, pos);
    assert_eq!(p.houses.len(), 0);
    assert_eq!(p.trees.len(), 0);
}

#[test]
fn houses_only_when_asked() {
    let p = Planet::new(10_000_000, Vec2i::new(0, 0), true, false);
    assert_eq!(p.trees.len(), 0);
    assert!(p.houses.len() <= 1_500);
}

#[test]
fn scattered_houses_are_well_formed() {
    macroquad::rand::srand(7);
    let p = Planet::new(10_000_000, Vec2i::new(0, 0), true, false);
    assert!(p.houses.len() > 0);
    for h in &p.houses {
        assert!(h.angle < 6_283);
        // Nothing stands in the cleared strip at the top of the planet.
        assert!(h.angle > 1_581 || h.angle < 1_561);
        // Plain or boosted, never in between, and boosted on both
        // dimensions or on neither.
        assert!(
            (20 <= h.tall && h.tall < 120 && 20 <= h.length && h.length < 320)
                || (520 <= h.tall && h.tall < 1_120 && 320 <= h.length && h.length < 1_020)
        );
        assert_eq!(h.tall >= 120, h.length >= 320);
    }
    let first = p.houses[0].angle;
    assert!(p.houses.iter().any(|h| h.angle != first));
}

#[test]
fn scattered_trees_are_well_formed() {
    macroquad::rand::srand(11);
    let p = Planet::new(5_000_000, Vec2i::new(20_000_000, 40_000_000), false, true);
    assert_eq!(p.houses.len(), 0);
    assert!(p.trees.len() > 0);
    assert!(p.trees.len() <= 500);
    for t in &p.trees {
        assert!(t.angle < 6_283);
        assert!(t.angle > 1_581 || t.angle < 1_561);
        assert!(20 <= t.tall && t.tall < 50);
        assert!(20 <= t.length && t.length < 320);
        assert!(1 <= t.levels && t.levels < 4);
    }
}

#[test]
fn house_attempt_decides_each_draw() {
    // In the cleared strip: no house, whatever else was drawn.
    assert_eq!(house_attempt(1_571, 50, 100, 1, 1, 1, 1, 1, 600, 400), None);
    assert_eq!(house_attempt(1_561, 50, 100, 0, 0, 0, 0, 0, 600, 400), None);
    assert_eq!(house_attempt(1_581, 119, 319, 1, 1, 1, 1, 1, 999, 699), None);
    // Outside the strip with all five flips on one: both bonuses.
    assert_eq!(
        house_attempt(2_000, 50, 100, 1, 1, 1, 1, 1, 600, 400),
        Some(House { angle: 2_000, tall: 650, length: 500 })
    );
    // One flip off: the plain house, neither bonus.
    assert_eq!(
        house_attempt(2_000, 50, 100, 1, 1, 0, 1, 1, 600, 400),
        Some(House { angle: 2_000, tall: 50, length: 100 })
    );
}

#[test]
fn tree_attempt_decides_each_draw() {
    assert_eq!(tree_attempt(1_570, 30, 100, 2), None);
    assert_eq!(
        tree_attempt(0, 30, 100, 2),
        Some(Tree { angle: 0, tall: 30, levels: 2, length: 100 })
    );
    assert_eq!(
        tree_attempt(1_582, 49, 319, 3),
        Some(Tree { angle: 1_582, tall: 49, levels: 3, length: 319 })
    );
}

#[test]
fn skyscrapers_are_rare_but_possible() {
    // Across many attempts some houses should take the five-flip bonus
    // and some should not: both plain and boosted heights appear.
    macroquad::rand::srand(3);
    let mut plain = 0u32;
    let mut boosted = 0u32;
    for _ in 0..10 {
        let p = Planet::new(10_000_000, Vec2i::new(0, 0), true, false);
        for h in &p.houses {
            if h.tall < 120 {
                plain += 1;
            }
            if h.tall >= 500 {
                boosted += 1;
            }
        }
    }
    assert!(plain > 0);
    assert!(boosted > 0);
}
