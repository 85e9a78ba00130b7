//! The enumerated parameters that the host exposes, with their display names.
use vstd::prelude::*;

verus! {

/// Scene override: `Auto` lets the analysis decide, the others force a section.
#[derive(Debug, Clone, Copy, PartialEq, Eq, Structural)]
pub enum Scene {
    Auto,
    Intro,
    Build,
    Drop,
    Breakdown,
    Outro,
}

/// Camera angle presets.
#[derive(Debug, Clone, Copy, PartialEq, Eq, Structural)]
pub enum Camera {
    Front,
    Side,
    Overhead,
    Crowd,
    Cinematic,
    Free,
}

/// Venue presets.
#[derive(Debug, Clone, Copy, PartialEq, Eq, Structural)]
pub enum Venue {
    Festival,
    Club,
    Arena,
    Abstract,
}

pub open spec fn scene_name(s: Scene) -> Seq<char> {
    match s {
        Scene::Auto => "Auto"@,
        Scene::Intro => "Intro"@,
        Scene::Build => "Build"@,
        Scene::Drop => "Drop"@,
        Scene::Breakdown => "Breakdown"@,
        Scene::Outro => "Outro"@,
    }
}

pub open spec fn camera_name(c: Camera) -> Seq<char> {
    match c {
        Camera::Front => "Front"@,
        Camera::Side => "Side"@,
        Camera::Overhead => "Overhead"@,
        Camera::Crowd => "Crowd"@,
        Camera::Cinematic => "Cinematic"@,
        Camera::Free => "Free"@,
    }
}

pub open spec fn venue_name(v: Venue) -> Seq<char> {
    match v {
        Venue::Festival => "Festival"@,
        Venue::Club => "Club"@,
        Venue::Arena => "Arena"@,
        Venue::Abstract => "Abstract"@,
    }
}

impl Scene {
    /// The name shown to the user and sent to the view.
    pub fn name(&self) -> (s: String)
        ensures
            s@ == scene_name(*self),
    {
        match self {
            Scene::Auto => String::from_str("Auto"),
            Scene::Intro => String::from_str("Intro"),
            Scene::Build => String::from_str("Build"),
            Scene::Drop => String::from_str("Drop"),
            Scene::Breakdown => String::from_str("Breakdown"),
            Scene::Outro => String::from_str("Outro"),
        }
    }
}

impl Camera {
    /// The name shown to the user and sent to the view.
    pub fn name(&self) -> (s: String)
        ensures
            s@ == camera_name(*self),
    {
        match self {
            Camera::Front => String::from_str("Front"),
            Camera::Side => String::from_str("Side"),
            Camera::Overhead => String::from_str("Overhead"),
            Camera::Crowd => String::from_str("Crowd"),
            Camera::Cinematic => String::from_str("Cinematic"),
            Camera::Free => String::from_str("Free"),
        }
    }
}

impl Venue {
    /// The name shown to the user and sent to the view.
    pub fn name(&self) -> (s: String)
        ensures
            s@ == venue_name(*self),
    {
        match self {
            Venue::Festival => String::from_str("Festival"),
            Venue::Club => String::from_str("Club"),
            Venue::Arena => String::from_str("Arena"),
            Venue::Abstract => String::from_str("Abstract"),
        }
    }
}

} // verus!
