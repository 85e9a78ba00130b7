use spotlight::auth::token_from_contents;
use spotlight::params::{Camera, Scene, Venue};

#[test]
fn token_is_trimmed() {
    assert_eq!(token_from_contents("  abc.def\n"), "abc.def");
    assert_eq!(token_from_contents("tok"), "tok");
    assert_eq!(token_from_contents("\t\r\n"), "");
    assert_eq!(token_from_contents(""), "");
    assert_eq!(token_from_contents(" a b "), "a b");
}

#[test]
fn unicode_white_space_is_trimmed() {
    assert_eq!(token_from_contents("\u{3000}tok\u{a0}\u{2028}"), "tok");
    assert_eq!(token_from_contents("\u{85}x\u{200a}"), "x");
    // A zero-width space is not white space.
    assert_eq!(token_from_contents("\u{200b}x"), "\u{200b}x");
    assert_eq!(token_from_contents("é "), "é");
}

#[test]
fn token_matches_std_trim() {
    for s in ["  x  ", "\u{1680}\u{205f}y\u{202f}", "z\u{feff}", "\u{0b}\u{0c}w"] {
        assert_eq!(token_from_contents(s), s.trim());
    }
}

#[test]
fn enum_names() {
    let scenes = [Scene::Auto, Scene::Intro, Scene::Build, Scene::Drop, Scene::Breakdown, Scene::Outro];
    let names: Vec<String> = scenes.iter().map(|s| s.name()).collect();
    assert_eq!(names, vec!["Auto", "Intro", "Build", "Drop", "Breakdown", "Outro"]);
    let cams = [Camera::Front, Camera::Side, Camera::Overhead, Camera::Crowd, Camera::Cinematic, Camera::Free];
    let names: Vec<String> = cams.iter().map(|s| s.name()).collect();
    assert_eq!(names, vec!["Front", "Side", "Overhead", "Crowd", "Cinematic", "Free"]);
    let venues = [Venue::Festival, Venue::Club, Venue::Arena, Venue::Abstract];
    let names: Vec<String> = venues.iter().map(|s| s.name()).collect();
    assert_eq!(names, vec!["Festival", "Club", "Arena", "Abstract"]);
}
