use vstd::prelude::*;
use crate::color::Rgba;
use crate::task::{Amplifier, amplifiers, spec_amplifiers, decimal, law_label_names_band};
use crate::utils::{MIN_FREQ, MAX_FREQ};
use crate::view::band_range;

verus! {

/// What a background zone of the plan stands for: the reception zone, or the
/// band of an amplifier, named by its label.
#[derive(Clone, Copy, PartialEq, Eq, Debug)]
pub enum BackgroundZoneKind {
    RxZone,
    Amplifier(&'static str),
}

impl BackgroundZoneKind {
    /// The name shown for the zone.
    pub open spec fn spec_name(self) -> Seq<char> {
        match self {
            BackgroundZoneKind::RxZone => "Zone de réception"@,
            BackgroundZoneKind::Amplifier(label) => label@,
        }
    }

    /// The name shown for the zone: "Zone de réception" for the reception
    /// zone, the label for an amplifier's zone.
    pub fn name(&self) -> (s: String)
        ensures
            s@ == self.spec_name(),
    {
        match self {
            BackgroundZoneKind::RxZone => String::from_str("Zone de réception"),
            BackgroundZoneKind::Amplifier(label) => String::from_str(label),
        }
    }
}

/// The outline of a zone: its width in tenths of a point, and its colour.
#[derive(Clone, Copy, PartialEq, Eq, Debug, Structural)]
pub struct ZoneStroke {
    pub width_tenths: u32,
    pub color: Rgba,
}

/// A text drawn on the plan.  It stands at `x2 / 2` MHz (the value is
/// doubled so that the middle of a band is exact) and `y` ms.
#[derive(Clone, Debug)]
pub struct ZoneLabel {
    pub text: String,
    pub x2: u32,
    pub y: u32,
    pub color: Rgba,
}

/// A background zone: the rectangle from `freq_start` to `freq_end` MHz and
/// from 0 to `height` ms, with its outline, its fill and an optional label.
#[derive(Clone, Debug)]
pub struct ZoneLayout {
    pub kind: BackgroundZoneKind,
    pub freq_start: u32,
    pub freq_end: u32,
    pub height: u32,
    pub stroke: ZoneStroke,
    pub fill: Rgba,
    pub label: Option<ZoneLabel>,
}

impl ZoneLayout {
    /// The corners of the zone, counter-clockwise from the lower left one:
    /// (frequency in MHz, time in ms).
    pub fn area(&self) -> (v: Vec<(u32, u32)>)
        ensures
            v@ == seq![
                (self.freq_start, 0u32),
                (self.freq_end, 0u32),
                (self.freq_end, self.height),
                (self.freq_start, self.height),
            ],
    {
        let v = vec![
            (self.freq_start, 0u32),
            (self.freq_end, 0u32),
            (self.freq_end, self.height),
            (self.freq_start, self.height),
        ];
        assert(v@ =~= seq![
            (self.freq_start, 0u32),
            (self.freq_end, 0u32),
            (self.freq_end, self.height),
            (self.freq_start, self.height),
        ]);
        v
    }
}

/// `s` with each space turned into a line break.
pub open spec fn spaces_to_newlines(s: Seq<char>) -> Seq<char> {
    s.map_values(|c: char| if c == ' ' { '\n' } else { c })
}

/// Calls `str::replace` with the pattern " " and the replacement "\n": every
/// space becomes a line break, and every other character is kept in place.
#[verifier::external_body]
fn replace_spaces(s: &str) -> (res: String)
    ensures
        res@ == spaces_to_newlines(s@),
{
    s.replace(" ", "\n")
}

/// Height of the reception zone, in ms.
pub const RX_ZONE_HEIGHT: u32 = 100;

/// Height of an amplifier's zone, in ms.  The 960-1215 MHz band overlaps its
/// neighbours, so its zone is drawn a little higher to stay visible.
pub open spec fn zone_height(a: Amplifier) -> u32 {
    if a == Amplifier::A960_1215 { 1125 } else { 1100 }
}

/// Where the label of an amplifier's zone stands, in ms.
pub open spec fn label_y(a: Amplifier) -> u32 {
    if a == Amplifier::A960_1215 { 1150 } else { 1050 }
}

/// The reception zone: the whole frequency range up to 100 ms, outlined in
/// thin gray and filled with a translucent gray (200, 200, 200 at alpha 100,
/// premultiplied), with no label.
pub open spec fn is_reception_zone(z: ZoneLayout) -> bool {
    &&& z.kind == BackgroundZoneKind::RxZone
    &&& z.freq_start == MIN_FREQ
    &&& z.freq_end == MAX_FREQ
    &&& z.height == RX_ZONE_HEIGHT
    &&& z.stroke == ZoneStroke { width_tenths: 1, color: Rgba { r: 100, g: 100, b: 100, a: 255 } }
    &&& z.fill == Rgba { r: 78, g: 78, b: 78, a: 100 }
    &&& z.label is None
}

/// The zone of amplifier `a`: its band, outlined in its colour, not filled,
/// and labelled with its label, one word per line, above the middle of the band.
pub open spec fn is_amplifier_zone(z: ZoneLayout, a: Amplifier) -> bool {
    &&& z.kind matches BackgroundZoneKind::Amplifier(l) && l@ == a.spec_label()
    &&& z.freq_start == a.spec_freq_start()
    &&& z.freq_end == a.spec_freq_end()
    &&& z.height == zone_height(a)
    &&& z.stroke == ZoneStroke { width_tenths: 10, color: a.spec_color() }
    &&& z.fill == Rgba { r: 0, g: 0, b: 0, a: 0 }
    &&& z.label matches Some(lb) && {
        &&& lb.text@ == spaces_to_newlines(a.spec_label())
        &&& lb.x2 == a.spec_freq_start() + a.spec_freq_end()
        &&& lb.y == label_y(a)
        &&& lb.color == a.spec_color()
    }
}

/// The zone drawn behind the tasks for amplifier `a`.
pub fn amplifier_zone(a: Amplifier) -> (z: ZoneLayout)
    ensures
        is_amplifier_zone(z, a),
{
    let label = a.label();
    let (f_start, f_end) = a.freq_range();
    let color = a.color();
    let is_tall = a == Amplifier::A960_1215;
    let height: u32 = if is_tall { 1125 } else { 1100 };
    let y: u32 = if is_tall { 1150 } else { 1050 };
    ZoneLayout {
        kind: BackgroundZoneKind::Amplifier(label),
        freq_start: f_start,
        freq_end: f_end,
        height,
        stroke: ZoneStroke { width_tenths: 10, color },
        fill: Rgba::transparent(),
        label: Some(ZoneLabel { text: replace_spaces(label), x2: f_start + f_end, y, color }),
    }
}

/// The background of the plan: the reception zone first, then one zone per
/// amplifier, in the order of `spec_amplifiers`.
pub fn get_background_zones() -> (v: Vec<ZoneLayout>)
    ensures
        v@.len() == spec_amplifiers().len() + 1,
        is_reception_zone(v@[0]),
        forall|i: int|
            1 <= i < v@.len() ==> is_amplifier_zone(#[trigger] v@[i], spec_amplifiers()[i - 1]),
{
    let mut zones: Vec<ZoneLayout> = Vec::new();
    zones.push(ZoneLayout {
        kind: BackgroundZoneKind::RxZone,
        freq_start: MIN_FREQ,
        freq_end: MAX_FREQ,
        height: RX_ZONE_HEIGHT,
        stroke: ZoneStroke { width_tenths: 1, color: Rgba::from_gray(100) },
        fill: Rgba::from_rgba_unmultiplied(200, 200, 200, 100),
        label: None,
    });
    let amps = amplifiers();
    let n = amps.len();
    for i in 0..n
        invariant
            n == amps@.len(),
            amps@ == spec_amplifiers(),
            zones@.len() == i + 1,
            is_reception_zone(zones@[0]),
            forall|j: int| 1 <= j <= i ==> is_amplifier_zone(#[trigger] zones@[j], spec_amplifiers()[j - 1]),
    {
        let z = amplifier_zone(amps[i]);
        zones.push(z);
    }
    zones
}

/// Each amplifier's zone lies inside the reception zone's frequency range,
/// spans a band of positive width, and rises above the reception zone.
pub proof fn law_amplifier_zones_within_reception(a: Amplifier)
    ensures
        MIN_FREQ <= a.spec_freq_start() < a.spec_freq_end() <= MAX_FREQ,
        RX_ZONE_HEIGHT < zone_height(a),
{
}

/// The zone drawn for the `i`-th amplifier covers exactly the band a user
/// zooms on when choosing the `i`-th band.
pub proof fn law_zones_match_bands(z: ZoneLayout, i: int, log_scale: bool)
    requires
        0 <= i < spec_amplifiers().len(),
        is_amplifier_zone(z, spec_amplifiers()[i]),
    ensures
        z.freq_start == band_range(i, log_scale).start,
        z.freq_end == band_range(i, log_scale).end,
{
}

/// An amplifier's zone is named by the amplifier's label; the reception zone
/// by "Zone de réception".
pub proof fn law_zone_names(z: ZoneLayout, a: Amplifier)
    ensures
        is_amplifier_zone(z, a) ==> z.kind.spec_name() == a.spec_label(),
        is_reception_zone(z) ==> z.kind.spec_name() == "Zone de réception"@,
{
}

/// No two amplifiers share a colour, so each zone and each task shows which
/// amplifier it belongs to.
pub proof fn law_amplifier_colors_distinct(a: Amplifier, b: Amplifier)
    requires
        a != b,
    ensures
        a.spec_color() != b.spec_color(),
{
}

/// Every amplifier's zone rises from 0 to 1100 ms, except the 960-1215 MHz
/// one, which rises to 1125 ms; its label stands 50 ms below the top of a
/// 1100 ms zone (at 1050 ms), and at 1150 ms for the 960-1215 MHz zone.  The
/// zone is the rectangle of the amplifier's band, outlined one point wide in
/// the amplifier's colour, not filled, and its label sits over the middle
/// of the band.
pub proof fn law_amplifier_zone_geometry(z: ZoneLayout, a: Amplifier)
    requires
        is_amplifier_zone(z, a),
    ensures
        a.spec_freq_start() != 960 ==> z.height == 1100,
        a.spec_freq_start() == 960 ==> z.height == 1125,
        z.label matches Some(lb) && {
            &&& a.spec_freq_start() != 960 ==> lb.y == 1050
            &&& a.spec_freq_start() == 960 ==> lb.y == 1150
            &&& lb.x2 == z.freq_start + z.freq_end
            &&& lb.color == a.spec_color()
        },
        z.freq_start == a.spec_freq_start(),
        z.freq_end == a.spec_freq_end(),
        z.stroke.width_tenths == 10,
        z.stroke.color == a.spec_color(),
        z.fill == (Rgba { r: 0, g: 0, b: 0, a: 0 }),
{
}

/// All amplifier zones but the 960-1215 MHz one share the height of the
/// 20-500 MHz zone.
pub proof fn law_zone_heights_shared(z: ZoneLayout, a: Amplifier, z0: ZoneLayout)
    requires
        is_amplifier_zone(z, a),
        is_amplifier_zone(z0, Amplifier::A20_500),
        a != Amplifier::A960_1215,
    ensures
        z.height == z0.height,
{
}

/// The reception zone covers 20-6000 MHz from 0 to 100 ms, outlined a tenth
/// of a point wide in opaque gray 100, filled with gray 200 at alpha 100
/// (premultiplied: 78), and has no label.
pub proof fn law_reception_zone(z: ZoneLayout)
    requires
        is_reception_zone(z),
    ensures
        z.kind.spec_name() == "Zone de réception"@,
        (z.freq_start, z.freq_end, z.height) == (20u32, 6000u32, 100u32),
        z.stroke == (ZoneStroke { width_tenths: 1, color: Rgba { r: 100, g: 100, b: 100, a: 255 } }),
        z.fill == (Rgba { r: 78, g: 78, b: 78, a: 100 }),
        z.label is None,
{
}

/// The label of an amplifier's zone reads "Amplifier", a line break, then
/// "<start>-<end>MHz" for the amplifier's band.
pub proof fn law_zone_label_text(z: ZoneLayout, a: Amplifier)
    requires
        is_amplifier_zone(z, a),
    ensures
        z.label matches Some(lb) && lb.text@ == "Amplifier\n"@ + decimal(a.spec_freq_start() as nat) + "-"@
            + decimal(a.spec_freq_end() as nat) + "MHz"@,
{
    law_label_names_band(a);
    reveal_strlit("Amplifier\n");
    reveal_strlit("Amplifier ");
    reveal_strlit("-");
    reveal_strlit("MHz");
    reveal_with_fuel(decimal, 5);
    let lb = z.label.unwrap();
    let expected = "Amplifier\n"@ + decimal(a.spec_freq_start() as nat) + "-"@ + decimal(a.spec_freq_end() as nat) + "MHz"@;
    assert(spaces_to_newlines(a.spec_label()) =~= expected);
}

} // verus!
