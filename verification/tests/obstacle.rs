use flappy::obstacle::Obstacle;
use flappy::player::Player;

fn player_at(x: i32, y: i32) -> Player {
    Player { x, y, velocity_half: 0, current_frame: 0 }
}

#[test]
fn gap_size_follows_score() {
    assert_eq!(Obstacle::new(10, 0).gap_size, 20);
    assert_eq!(Obstacle::new(10, 1).gap_size, 19);
    assert_eq!(Obstacle::new(10, 5).gap_size, 15);
    assert_eq!(Obstacle::new(10, 17).gap_size, 3);
}

#[test]
fn gap_size_floored_at_two() {
    assert_eq!(Obstacle::new(10, 18).gap_size, 2);
    assert_eq!(Obstacle::new(10, 19).gap_size, 2);
    assert_eq!(Obstacle::new(10, 1000).gap_size, 2);
}

#[test]
fn gap_center_drawn_inside_band() {
    for score in 0i32..30 {
        let o = Obstacle::new(7, score);
        assert_eq!(o.x, 7);
        assert!(o.gap_y >= 10 && o.gap_y < 40);
    }
}

#[test]
fn hit_when_outside_gap_in_same_column() {
    let o = Obstacle { x: 10, gap_y: 20, gap_size: 6 };
    // y = 10 is above the gap band [17, 23].
    assert!(o.hit_obstacle(&player_at(10, 10)));
    // y = 24 is just below the band.
    assert!(o.hit_obstacle(&player_at(10, 24)));
    // y = 16 is just above the band.
    assert!(o.hit_obstacle(&player_at(10, 16)));
}

#[test]
fn no_hit_inside_gap() {
    let o = Obstacle { x: 10, gap_y: 20, gap_size: 6 };
    assert!(!o.hit_obstacle(&player_at(10, 20)));
    // The band's edges [17, 23] are passable.
    assert!(!o.hit_obstacle(&player_at(10, 17)));
    assert!(!o.hit_obstacle(&player_at(10, 23)));
}

#[test]
fn no_hit_in_another_column() {
    let o = Obstacle { x: 10, gap_y: 20, gap_size: 6 };
    assert!(!o.hit_obstacle(&player_at(11, 10)));
    assert!(!o.hit_obstacle(&player_at(9, 10)));
}

#[test]
fn gap_band_bounds() {
    let o = Obstacle { x: 10, gap_y: 20, gap_size: 6 };
    assert_eq!(o.gap_top(), 17);
    assert_eq!(o.gap_bottom(), 23);
    // Odd sizes round the half width down.
    let odd = Obstacle { x: 10, gap_y: 20, gap_size: 5 };
    assert_eq!(odd.gap_top(), 18);
    assert_eq!(odd.gap_bottom(), 22);
    // The narrowest gap still leaves the center row open.
    let floor = Obstacle { x: 10, gap_y: 20, gap_size: 2 };
    assert!(!floor.hit_obstacle(&player_at(10, 20)));
    assert!(floor.hit_obstacle(&player_at(10, 22)));
}
