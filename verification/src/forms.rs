//! The rules of the game's forms: joining with a game code, hosting a game,
//! naming a map, and adding an exclusion zone by hand.

use vstd::prelude::*;
use vstd::utf8::encode_utf8;
use crate::text::{trim, trimmed, to_uppercase, uppercased, trimmed_string, is_blank, same_text, parse_u32, parsed_u32};

verus! {

/// Why a form was refused.
#[derive(Clone, Copy, Debug, PartialEq, Eq, Structural)]
pub enum FormError {
    BadGameCode,
    MissingDisplayName,
    MissingTeamName,
    MissingHostName,
    NoMapSelected,
    MissingMapName,
    WizardMissingMapName,
    WizardTooFewPoints,
    BoundaryTooFewPoints,
    InvalidLatitude,
    InvalidLongitude,
    InvalidRadius,
}

pub open spec fn form_error_text(e: FormError) -> Seq<char> {
    match e {
        FormError::BadGameCode => "Enter the 6-character game code"@,
        FormError::MissingDisplayName => "Enter your display name"@,
        FormError::MissingTeamName => "Enter your team name"@,
        FormError::MissingHostName => "Enter your name"@,
        FormError::NoMapSelected => "Select a map"@,
        FormError::MissingMapName => "Map name is required."@,
        FormError::WizardMissingMapName => "Map name is required"@,
        FormError::WizardTooFewPoints => "At least 3 boundary points required"@,
        FormError::BoundaryTooFewPoints => "Draw at least 3 boundary points before continuing."@,
        FormError::InvalidLatitude => "Invalid latitude"@,
        FormError::InvalidLongitude => "Invalid longitude"@,
        FormError::InvalidRadius => "Invalid radius"@,
    }
}

impl FormError {
    /// The message shown under the form.
    pub fn message(&self) -> (s: &'static str)
        ensures
            s@ == form_error_text(*self),
    {
        match self {
            FormError::BadGameCode => "Enter the 6-character game code",
            FormError::MissingDisplayName => "Enter your display name",
            FormError::MissingTeamName => "Enter your team name",
            FormError::MissingHostName => "Enter your name",
            FormError::NoMapSelected => "Select a map",
            FormError::MissingMapName => "Map name is required.",
            FormError::WizardMissingMapName => "Map name is required",
            FormError::WizardTooFewPoints => "At least 3 boundary points required",
            FormError::BoundaryTooFewPoints => "Draw at least 3 boundary points before continuing.",
            FormError::InvalidLatitude => "Invalid latitude",
            FormError::InvalidLongitude => "Invalid longitude",
            FormError::InvalidRadius => "Invalid radius",
        }
    }
}

/// Length in bytes of a game code: it must be six (codes are like "A3X7K2").
pub const GAME_CODE_LEN: usize = 6;

/// A code as typed, made canonical: surrounding whitespace removed, upper case.
pub open spec fn normalized_code(raw: Seq<char>) -> Seq<char> {
    uppercased(trimmed(raw))
}

/// Whether a canonical code has the length of a game code (in UTF-8 bytes).
pub open spec fn code_has_valid_length(code: Seq<char>) -> bool {
    encode_utf8(code).len() == 6
}

/// Makes a typed code canonical.
pub fn normalize_code(raw: &str) -> (code: String)
    ensures
        code@ == normalized_code(raw@),
{
    to_uppercase(trim(raw))
}

/// Accepts a canonical code of six bytes.
pub fn check_code(code: String) -> (r: Result<String, FormError>)
    ensures
        code_has_valid_length(code@) ==> r == Ok::<String, FormError>(code),
        !code_has_valid_length(code@) ==> r == Err::<String, FormError>(FormError::BadGameCode),
{
    if code.as_str().as_bytes().len() == GAME_CODE_LEN {
        Ok(code)
    } else {
        Err(FormError::BadGameCode)
    }
}

/// The landing page's code box: the canonical code, if it has six bytes.
pub fn validate_landing_code(raw: &str) -> (r: Result<String, FormError>)
    ensures
        code_has_valid_length(normalized_code(raw@)) ==> r is Ok && r->Ok_0@ == normalized_code(raw@),
        !code_has_valid_length(normalized_code(raw@)) ==> r == Err::<String, FormError>(FormError::BadGameCode),
{
    check_code(normalize_code(raw))
}

/// A code remembered from the landing page, used to pre-fill the join form when
/// it is still a valid code.
pub fn prefill_code(raw: &str) -> (r: Option<String>)
    ensures
        code_has_valid_length(normalized_code(raw@)) ==> r is Some && r->Some_0@ == normalized_code(raw@),
        !code_has_valid_length(normalized_code(raw@)) ==> r is None,
{
    match check_code(normalize_code(raw)) {
        Ok(code) => Some(code),
        Err(_) => None,
    }
}

/// The side a team plays.
#[derive(Clone, Copy, Debug, PartialEq, Eq, Structural)]
pub enum TeamRole {
    Hider,
    Seeker,
}

/// What joining a game sends: code, player name, team name and role.
pub struct JoinRequest {
    pub code: String,
    pub display_name: String,
    pub team_name: String,
    pub role: TeamRole,
}

/// The join form: the code must have six bytes, then the player's name and the
/// team's name must not be blank; all three are sent trimmed (the code also upper case).
pub fn validate_join(code_input: &str, name_input: &str, team_input: &str, role: TeamRole) -> (r: Result<JoinRequest, FormError>)
    ensures
        !code_has_valid_length(normalized_code(code_input@)) ==> r == Err::<JoinRequest, FormError>(FormError::BadGameCode),
        code_has_valid_length(normalized_code(code_input@)) && trimmed(name_input@).len() == 0
            ==> r == Err::<JoinRequest, FormError>(FormError::MissingDisplayName),
        code_has_valid_length(normalized_code(code_input@)) && trimmed(name_input@).len() > 0
            && trimmed(team_input@).len() == 0 ==> r == Err::<JoinRequest, FormError>(FormError::MissingTeamName),
        code_has_valid_length(normalized_code(code_input@)) && trimmed(name_input@).len() > 0
            && trimmed(team_input@).len() > 0 ==> r is Ok && r->Ok_0.code@ == normalized_code(code_input@)
            && r->Ok_0.display_name@ == trimmed(name_input@) && r->Ok_0.team_name@ == trimmed(team_input@)
            && r->Ok_0.role == role,
{
    let code = match check_code(normalize_code(code_input)) {
        Ok(c) => c,
        Err(e) => return Err(e),
    };
    let display_name = trimmed_string(name_input);
    let team_name = trimmed_string(team_input);
    if display_name.as_str().is_empty() {
        return Err(FormError::MissingDisplayName);
    }
    if team_name.as_str().is_empty() {
        return Err(FormError::MissingTeamName);
    }
    Ok(JoinRequest { code, display_name, team_name, role })
}

/// What hosting a game sends: the chosen map and the host's name.
pub struct CreateGameRequest {
    pub map_id: u128,
    pub host_display_name: String,
}

/// The host form: the host's name must not be blank and a map must be chosen.
pub fn validate_host_setup(name_input: &str, selected_map: Option<u128>) -> (r: Result<CreateGameRequest, FormError>)
    ensures
        trimmed(name_input@).len() == 0 ==> r == Err::<CreateGameRequest, FormError>(FormError::MissingHostName),
        trimmed(name_input@).len() > 0 && selected_map is None ==> r == Err::<CreateGameRequest, FormError>(FormError::NoMapSelected),
        trimmed(name_input@).len() > 0 && selected_map is Some ==> r is Ok && r->Ok_0.map_id == selected_map->Some_0
            && r->Ok_0.host_display_name@ == trimmed(name_input@),
{
    let name = trimmed_string(name_input);
    if name.as_str().is_empty() {
        return Err(FormError::MissingHostName);
    }
    match selected_map {
        Some(map_id) => Ok(CreateGameRequest { map_id, host_display_name: name }),
        None => Err(FormError::NoMapSelected),
    }
}

/// The host form's button is disabled while creating, without a name, or
/// without a map.
pub fn host_submit_disabled(loading: bool, name_input: &str, selected_map: Option<u128>) -> (b: bool)
    ensures
        b == (loading || trimmed(name_input@).len() == 0 || selected_map is None),
{
    loading || is_blank(name_input) || selected_map.is_none()
}

/// How large a map is.
#[derive(Clone, Copy, Debug, PartialEq, Eq, Structural)]
pub enum MapSize {
    Small,
    Medium,
    Large,
}

pub open spec fn parsed_map_size(value: Seq<char>) -> MapSize {
    if value == "small"@ {
        MapSize::Small
    } else if value == "large"@ {
        MapSize::Large
    } else {
        MapSize::Medium
    }
}

/// The size chosen in the wizard's list: "small", "large", anything else medium.
pub fn parse_map_size(value: &str) -> (size: MapSize)
    ensures
        size == parsed_map_size(value@),
{
    if same_text(value, "small") {
        MapSize::Small
    } else if same_text(value, "large") {
        MapSize::Large
    } else {
        MapSize::Medium
    }
}

/// One of the sizes offered, with its name and what it suits.
pub struct SizeChoice {
    pub size: MapSize,
    pub label: &'static str,
    pub description: &'static str,
}

/// The sizes offered when naming a map, smallest first.
pub fn size_choices() -> (v: Vec<SizeChoice>)
    ensures
        v.len() == 3,
        v@[0].size == MapSize::Small && v@[0].label@ == "Small"@ && v@[0].description@ == "Neighbourhood / city district"@,
        v@[1].size == MapSize::Medium && v@[1].label@ == "Medium"@ && v@[1].description@ == "City / metro region"@,
        v@[2].size == MapSize::Large && v@[2].label@ == "Large"@ && v@[2].description@ == "Region / country"@,
{
    let mut v = Vec::new();
    v.push(SizeChoice { size: MapSize::Small, label: "Small", description: "Neighbourhood / city district" });
    v.push(SizeChoice { size: MapSize::Medium, label: "Medium", description: "City / metro region" });
    v.push(SizeChoice { size: MapSize::Large, label: "Large", description: "Region / country" });
    v
}

/// What naming a map sends: its trimmed name and its size.
pub struct MapInfoRequest {
    pub name: String,
    pub size: MapSize,
}

/// The map-naming page: the name must not be blank.
pub fn validate_map_info(name_input: &str, size: MapSize) -> (r: Result<MapInfoRequest, FormError>)
    ensures
        trimmed(name_input@).len() == 0 ==> r == Err::<MapInfoRequest, FormError>(FormError::MissingMapName),
        trimmed(name_input@).len() > 0 ==> r is Ok && r->Ok_0.name@ == trimmed(name_input@) && r->Ok_0.size == size,
{
    let name = trimmed_string(name_input);
    if name.as_str().is_empty() {
        Err(FormError::MissingMapName)
    } else {
        Ok(MapInfoRequest { name, size })
    }
}

/// The map-naming page's button is disabled while saving or without a name.
pub fn map_info_submit_disabled(saving: bool, name_input: &str) -> (b: bool)
    ensures
        b == (saving || trimmed(name_input@).len() == 0),
{
    saving || is_blank(name_input)
}

/// The boundary page lets the author go on only with a polygon.
pub fn validate_boundary_step(n_points: usize) -> (r: Result<(), FormError>)
    ensures
        n_points < 3 ==> r == Err::<(), FormError>(FormError::BoundaryTooFewPoints),
        n_points >= 3 ==> r is Ok,
{
    if n_points < 3 {
        Err(FormError::BoundaryTooFewPoints)
    } else {
        Ok(())
    }
}

/// An optional label as typed: trimmed, and none when blank.
pub open spec fn label_of(input: Seq<char>) -> Option<Seq<char>> {
    if trimmed(input).len() == 0 {
        None
    } else {
        Some(trimmed(input))
    }
}

/// The trimmed label, or none when blank.
pub fn optional_label(input: &str) -> (r: Option<String>)
    ensures
        (r is Some) == (label_of(input@) is Some),
        r is Some ==> r->Some_0@ == label_of(input@)->Some_0,
{
    let l = trimmed_string(input);
    if l.as_str().is_empty() {
        None
    } else {
        Some(l)
    }
}

/// A zone typed in by hand: its centre, radius in metres, label and which side
/// of the circle it excludes. The coordinates are carried through unread.
pub struct ZoneDraft<C> {
    pub lat: C,
    pub lng: C,
    pub radius_m: u32,
    pub label: Option<String>,
    pub exclude_outside: bool,
}

/// The hand-made zone form. Latitude and longitude come already read (absent when
/// they did not parse); they are checked first, then the radius, which must be a
/// whole number of metres.
pub fn validate_zone_form<C>(
    lat: Option<C>,
    lng: Option<C>,
    radius_input: &str,
    label_input: &str,
    exclude_outside: bool,
) -> (r: Result<ZoneDraft<C>, FormError>)
    ensures
        lat is None ==> r == Err::<ZoneDraft<C>, FormError>(FormError::InvalidLatitude),
        lat is Some && lng is None ==> r == Err::<ZoneDraft<C>, FormError>(FormError::InvalidLongitude),
        lat is Some && lng is Some && parsed_u32(trimmed(radius_input@)) is None
            ==> r == Err::<ZoneDraft<C>, FormError>(FormError::InvalidRadius),
        lat is Some && lng is Some && parsed_u32(trimmed(radius_input@)) is Some ==> r is Ok && {
            let d = r->Ok_0;
            &&& d.lat == lat->Some_0
            &&& d.lng == lng->Some_0
            &&& d.radius_m == parsed_u32(trimmed(radius_input@))->Some_0
            &&& (d.label is Some) == (label_of(label_input@) is Some)
            &&& d.label is Some ==> d.label->Some_0@ == label_of(label_input@)->Some_0
            &&& d.exclude_outside == exclude_outside
        },
{
    let lat = match lat {
        Some(v) => v,
        None => return Err(FormError::InvalidLatitude),
    };
    let lng = match lng {
        Some(v) => v,
        None => return Err(FormError::InvalidLongitude),
    };
    let radius_m = match parse_u32(trim(radius_input)) {
        Some(v) => v,
        None => return Err(FormError::InvalidRadius),
    };
    let label = optional_label(label_input);
    Ok(ZoneDraft { lat, lng, radius_m, label, exclude_outside })
}

pub open spec fn team_role_name_text(role: TeamRole) -> Seq<char> {
    match role {
        TeamRole::Hider => "Hider"@,
        TeamRole::Seeker => "Seeker"@,
    }
}

/// The role's name as shown next to a team.
pub fn team_role_name(role: TeamRole) -> (s: &'static str)
    ensures
        s@ == team_role_name_text(role),
{
    match role {
        TeamRole::Hider => "Hider",
        TeamRole::Seeker => "Seeker",
    }
}

} // verus!
