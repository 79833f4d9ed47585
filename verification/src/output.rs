//! The monitor-snapshot data model, the naming rule for display identifiers,
//! and the renderer that turns a profile into its configuration text block.

use vstd::prelude::*;
use vstd::string::StrSliceExecFns;
use vstd::string::StringExecFns;

use crate::text::dec_digit;
use crate::text::dec_text;
use crate::text::digit_str;
use crate::text::int_text;
use crate::text::isize_text;
use crate::text::str_eq;
use crate::text::usize_text;

verus! {

/// One supported resolution/refresh combination of a monitor. The refresh
/// rate is kept in millihertz so that it can be formatted exactly.
pub struct OutputMode {
    pub width: usize,
    pub height: usize,
    pub refresh: usize,
    pub picture_aspect_ratio: Option<String>,
}

/// A monitor's placement rectangle: a signed position and an unsigned size.
pub struct OutputRect {
    pub x: isize,
    pub y: isize,
    pub width: usize,
    pub height: usize,
}

/// A snapshot of a currently active monitor. The scale factor is kept as the
/// decimal text the compositor reported, and is emitted verbatim.
pub struct ActiveOutput {
    pub id: usize,
    pub kind: String,
    pub orientation: String,
    pub layout: String,
    pub rect: OutputRect,
    pub name: String,
    pub primary: bool,
    pub make: String,
    pub model: String,
    pub serial: String,
    pub modes: Vec<OutputMode>,
    pub active: bool,
    pub scale: String,
    pub scale_filter: String,
    pub transform: String,
    pub adaptive_sync_status: String,
    pub current_mode: OutputMode,
    pub subpixel_hinting: String,
}

/// A snapshot of a monitor that is currently inactive.
pub struct InactiveOutput {
    pub name: String,
    pub kind: String,
    pub primary: bool,
    pub make: String,
    pub model: String,
    pub serial: String,
    pub modes: Vec<OutputMode>,
    pub active: bool,
    pub rect: OutputRect,
}

/// One monitor snapshot, active or inactive.
pub enum Output {
    Active(ActiveOutput),
    Inactive(InactiveOutput),
}

/// A named, ordered collection of monitor snapshots.
pub struct Profile {
    pub name: String,
    pub outputs: Vec<Output>,
}

/// Mathematical model of an `OutputMode`.
pub ghost struct ModeView {
    pub width: nat,
    pub height: nat,
    pub refresh: nat,
    pub picture_aspect_ratio: Option<Seq<char>>,
}

/// Mathematical model of an `OutputRect`.
pub ghost struct RectView {
    pub x: int,
    pub y: int,
    pub width: nat,
    pub height: nat,
}

/// Mathematical model of an `ActiveOutput`.
pub ghost struct ActiveOutputView {
    pub id: nat,
    pub kind: Seq<char>,
    pub orientation: Seq<char>,
    pub layout: Seq<char>,
    pub rect: RectView,
    pub name: Seq<char>,
    pub primary: bool,
    pub make: Seq<char>,
    pub model: Seq<char>,
    pub serial: Seq<char>,
    pub modes: Seq<ModeView>,
    pub active: bool,
    pub scale: Seq<char>,
    pub scale_filter: Seq<char>,
    pub transform: Seq<char>,
    pub adaptive_sync_status: Seq<char>,
    pub current_mode: ModeView,
    pub subpixel_hinting: Seq<char>,
}

/// Mathematical model of an `InactiveOutput`.
pub ghost struct InactiveOutputView {
    pub name: Seq<char>,
    pub kind: Seq<char>,
    pub primary: bool,
    pub make: Seq<char>,
    pub model: Seq<char>,
    pub serial: Seq<char>,
    pub modes: Seq<ModeView>,
    pub active: bool,
    pub rect: RectView,
}

/// Mathematical model of an `Output`.
pub ghost enum OutputView {
    Active(ActiveOutputView),
    Inactive(InactiveOutputView),
}

/// Mathematical model of a `Profile`.
pub ghost struct ProfileView {
    pub name: Seq<char>,
    pub outputs: Seq<OutputView>,
}

impl View for OutputMode {
    type V = ModeView;

    open spec fn view(&self) -> ModeView {
        ModeView {
            width: self.width as nat,
            height: self.height as nat,
            refresh: self.refresh as nat,
            picture_aspect_ratio: match self.picture_aspect_ratio {
                Option::Some(s) => Option::Some(s@),
                Option::None => Option::None,
            },
        }
    }
}

impl View for OutputRect {
    type V = RectView;

    open spec fn view(&self) -> RectView {
        RectView {
            x: self.x as int,
            y: self.y as int,
            width: self.width as nat,
            height: self.height as nat,
        }
    }
}

impl View for ActiveOutput {
    type V = ActiveOutputView;

    open spec fn view(&self) -> ActiveOutputView {
        ActiveOutputView {
            id: self.id as nat,
            kind: self.kind@,
            orientation: self.orientation@,
            layout: self.layout@,
            rect: self.rect@,
            name: self.name@,
            primary: self.primary,
            make: self.make@,
            model: self.model@,
            serial: self.serial@,
            modes: self.modes@.map_values(|m: OutputMode| m@),
            active: self.active,
            scale: self.scale@,
            scale_filter: self.scale_filter@,
            transform: self.transform@,
            adaptive_sync_status: self.adaptive_sync_status@,
            current_mode: self.current_mode@,
            subpixel_hinting: self.subpixel_hinting@,
        }
    }
}

impl View for InactiveOutput {
    type V = InactiveOutputView;

    open spec fn view(&self) -> InactiveOutputView {
        InactiveOutputView {
            name: self.name@,
            kind: self.kind@,
            primary: self.primary,
            make: self.make@,
            model: self.model@,
            serial: self.serial@,
            modes: self.modes@.map_values(|m: OutputMode| m@),
            active: self.active,
            rect: self.rect@,
        }
    }
}

impl View for Output {
    type V = OutputView;

    open spec fn view(&self) -> OutputView {
        match self {
            Output::Active(a) => OutputView::Active(a@),
            Output::Inactive(i) => OutputView::Inactive(i@),
        }
    }
}

impl View for Profile {
    type V = ProfileView;

    open spec fn view(&self) -> ProfileView {
        ProfileView { name: self.name@, outputs: self.outputs@.map_values(|o: Output| o@) }
    }
}

/// Whether an unstable identifier denotes an embedded panel: it starts with
/// the literal prefix "eDP".
pub open spec fn spec_is_embedded(name: Seq<char>) -> bool {
    name.len() >= 3 && name[0] == 'e' && name[1] == 'D' && name[2] == 'P'
}

/// The stable identifier: make, model and serial, single-space separated.
pub open spec fn spec_stable_identifier(make: Seq<char>, model: Seq<char>, serial: Seq<char>) -> Seq<char> {
    make + " "@ + model + " "@ + serial
}

/// The name used when configuring the display: the unstable identifier for an
/// embedded panel, the stable identifier otherwise.
pub open spec fn spec_display_name(
    name: Seq<char>,
    make: Seq<char>,
    model: Seq<char>,
    serial: Seq<char>,
) -> Seq<char> {
    if spec_is_embedded(name) {
        name
    } else {
        spec_stable_identifier(make, model, serial)
    }
}

/// The display name of a snapshot, active or inactive.
pub open spec fn spec_output_display_name(o: OutputView) -> Seq<char> {
    match o {
        OutputView::Active(a) => spec_display_name(a.name, a.make, a.model, a.serial),
        OutputView::Inactive(i) => spec_display_name(i.name, i.make, i.model, i.serial),
    }
}

/// The refresh rate in millihertz rendered as hertz with exactly three
/// decimal places, ending in "Hz".
pub open spec fn spec_refresh_value(r: nat) -> Seq<char> {
    dec_text(r / 1000) + "."@ + seq![dec_digit(r % 1000 / 100)] + seq![dec_digit(r % 1000 / 10 % 10)]
        + seq![dec_digit(r % 1000 % 10)] + "Hz"@
}

/// The value of the mode directive: width, height and refresh rate.
pub open spec fn spec_mode_value(m: ModeView) -> Seq<char> {
    dec_text(m.width) + "x"@ + dec_text(m.height) + "@"@ + spec_refresh_value(m.refresh)
}

/// The value of the position directive: the rectangle's signed coordinates.
pub open spec fn spec_position_value(r: RectView) -> Seq<char> {
    int_text(r.x) + ","@ + int_text(r.y)
}

/// The value of the adaptive_sync directive: "on" exactly when the raw status
/// equals "enabled", "off" for every other raw value.
pub open spec fn spec_adaptive_sync_value(raw: Seq<char>) -> Seq<char> {
    if raw == "enabled"@ {
        "on"@
    } else {
        "off"@
    }
}

/// The value of the subpixel directive: "none" exactly when the raw value
/// equals "unknown"; every other raw value passes through unchanged.
pub open spec fn spec_subpixel_value(raw: Seq<char>) -> Seq<char> {
    if raw == "unknown"@ {
        "none"@
    } else {
        raw
    }
}

/// One top-level directive line for a snapshot (without indentation and
/// without a line terminator): the display name and enable/disable, followed,
/// for an active snapshot, by its directive fragments in fixed order.
pub open spec fn spec_output_line(o: OutputView) -> Seq<char> {
    match o {
        OutputView::Active(a) => {
            let head = "output \""@ + spec_display_name(a.name, a.make, a.model, a.serial) + "\" "@;
            if a.active {
                head + "enable"@ + " "@ + "mode"@ + " "@ + spec_mode_value(a.current_mode) + " "@
                    + "position"@ + " "@ + spec_position_value(a.rect) + " "@ + "scale"@ + " "@
                    + a.scale + " "@ + "transform"@ + " "@ + a.transform + " "@ + "adaptive_sync"@
                    + " "@ + spec_adaptive_sync_value(a.adaptive_sync_status)
            } else {
                head + "disable"@
            }
        },
        OutputView::Inactive(i) => {
            let head = "output \""@ + spec_display_name(i.name, i.make, i.model, i.serial) + "\" "@;
            if i.active {
                head + "enable"@
            } else {
                head + "disable"@
            }
        },
    }
}

/// The post-configuration exec line of one active snapshot, indented one
/// level and terminated by a newline.
pub open spec fn spec_exec_line(a: ActiveOutputView) -> Seq<char> {
    "    exec swaymsg output \"'"@ + spec_display_name(a.name, a.make, a.model, a.serial) + "'\" "@
        + "subpixel"@ + " "@ + spec_subpixel_value(a.subpixel_hinting) + "\n"@
}

/// What one snapshot contributes to the exec section: its exec line if it is
/// active, nothing if it is inactive.
pub open spec fn spec_exec_contrib(o: OutputView) -> Seq<char> {
    match o {
        OutputView::Active(a) => spec_exec_line(a),
        OutputView::Inactive(_) => Seq::<char>::empty(),
    }
}

/// The block of directive lines: one line per snapshot in sequence order,
/// each indented one level and terminated by a newline.
pub open spec fn spec_output_block(outs: Seq<OutputView>) -> Seq<char>
    decreases outs.len(),
{
    if outs.len() == 0 {
        Seq::<char>::empty()
    } else {
        spec_output_block(outs.drop_last()) + "    "@ + spec_output_line(outs.last()) + "\n"@
    }
}

/// The exec section: the contributions of all snapshots in sequence order.
pub open spec fn spec_exec_block(outs: Seq<OutputView>) -> Seq<char>
    decreases outs.len(),
{
    if outs.len() == 0 {
        Seq::<char>::empty()
    } else {
        spec_exec_block(outs.drop_last()) + spec_exec_contrib(outs.last())
    }
}

/// The whole profile block: header line, one directive line per snapshot, a
/// blank line, one exec line per active snapshot, and the closing brace.
pub open spec fn spec_profile_text(p: ProfileView) -> Seq<char> {
    "profile "@ + p.name + " {\n"@ + spec_output_block(p.outputs) + "\n"@ + spec_exec_block(p.outputs)
        + "}"@
}

/// Whether a compositor-assigned name denotes an embedded panel, that is,
/// starts with "eDP".
pub fn is_embedded_name(name: &str) -> (r: bool)
    ensures
        r == spec_is_embedded(name@),
{
    if name.unicode_len() < 3 {
        false
    } else {
        name.get_char(0) == 'e' && name.get_char(1) == 'D' && name.get_char(2) == 'P'
    }
}

/// The stable identifier built from make, model and serial.
fn stable_identifier_of(make: &String, model: &String, serial: &String) -> (r: String)
    ensures
        r@ == spec_stable_identifier(make@, model@, serial@),
{
    let mut r = make.clone();
    r.append(" ");
    r.append(model.as_str());
    r.append(" ");
    r.append(serial.as_str());
    r
}

/// The display name chosen by the naming rule.
fn display_name_of(name: &String, make: &String, model: &String, serial: &String) -> (r: String)
    ensures
        r@ == spec_display_name(name@, make@, model@, serial@),
{
    if is_embedded_name(name.as_str()) {
        name.clone()
    } else {
        stable_identifier_of(make, model, serial)
    }
}

/// The refresh directive text for a rate in millihertz.
fn refresh_value(r: usize) -> (s: String)
    ensures
        s@ == spec_refresh_value(r as nat),
{
    let q: usize = r / 1000;
    let f: usize = r % 1000;
    let mut s = usize_text(q);
    s.append(".");
    s.append(digit_str(f / 100));
    s.append(digit_str(f / 10 % 10));
    s.append(digit_str(f % 10));
    s.append("Hz");
    proof {
        assert(s@ =~= spec_refresh_value(r as nat));
    }
    s
}

impl ActiveOutput {
    /// The raw compositor-assigned name.
    pub fn unstable_identifier(&self) -> (r: String)
        ensures
            r@ == self.name@,
    {
        self.name.clone()
    }

    /// The make/model/serial composite identifier.
    pub fn stable_identifier(&self) -> (r: String)
        ensures
            r@ == spec_stable_identifier(self.make@, self.model@, self.serial@),
    {
        stable_identifier_of(&self.make, &self.model, &self.serial)
    }

    /// Whether this snapshot describes an embedded panel.
    pub fn is_embedded(&self) -> (r: bool)
        ensures
            r == spec_is_embedded(self.name@),
    {
        is_embedded_name(self.name.as_str())
    }

    /// The name used when configuring this display.
    pub fn display_name(&self) -> (r: String)
        ensures
            r@ == spec_display_name(self.name@, self.make@, self.model@, self.serial@),
    {
        display_name_of(&self.name, &self.make, &self.model, &self.serial)
    }

    /// The mode directive fragment.
    pub fn mode(&self) -> (kv: (String, String))
        ensures
            kv.0@ == "mode"@,
            kv.1@ == spec_mode_value(self.current_mode@),
    {
        let mut v = usize_text(self.current_mode.width);
        v.append("x");
        let h = usize_text(self.current_mode.height);
        v.append(h.as_str());
        v.append("@");
        let rr = refresh_value(self.current_mode.refresh);
        v.append(rr.as_str());
        proof {
            assert(v@ =~= spec_mode_value(self.current_mode@));
        }
        (String::from_str("mode"), v)
    }

    /// The position directive fragment.
    pub fn position(&self) -> (kv: (String, String))
        ensures
            kv.0@ == "position"@,
            kv.1@ == spec_position_value(self.rect@),
    {
        let mut v = isize_text(self.rect.x);
        v.append(",");
        let y = isize_text(self.rect.y);
        v.append(y.as_str());
        proof {
            assert(v@ =~= spec_position_value(self.rect@));
        }
        (String::from_str("position"), v)
    }

    /// The scale directive fragment: the stored scale text, verbatim.
    pub fn scale(&self) -> (kv: (String, String))
        ensures
            kv.0@ == "scale"@,
            kv.1@ == self.scale@,
    {
        (String::from_str("scale"), self.scale.clone())
    }

    /// The transform directive fragment: the stored transform, verbatim.
    pub fn transform(&self) -> (kv: (String, String))
        ensures
            kv.0@ == "transform"@,
            kv.1@ == self.transform@,
    {
        (String::from_str("transform"), self.transform.clone())
    }

    /// The adaptive_sync directive fragment: "on" exactly when the raw status
    /// is "enabled", "off" for every other raw status.
    pub fn adaptive_sync(&self) -> (kv: (String, String))
        ensures
            kv.0@ == "adaptive_sync"@,
            kv.1@ == spec_adaptive_sync_value(self.adaptive_sync_status@),
            self.adaptive_sync_status@ == "enabled"@ ==> kv.1@ == "on"@,
            self.adaptive_sync_status@ != "enabled"@ ==> kv.1@ == "off"@,
    {
        if str_eq(self.adaptive_sync_status.as_str(), "enabled") {
            (String::from_str("adaptive_sync"), String::from_str("on"))
        } else {
            (String::from_str("adaptive_sync"), String::from_str("off"))
        }
    }

    /// The subpixel directive fragment: "none" exactly when the raw value is
    /// "unknown"; every other raw value passes through unchanged.
    pub fn subpixel_hinting(&self) -> (kv: (String, String))
        ensures
            kv.0@ == "subpixel"@,
            kv.1@ == spec_subpixel_value(self.subpixel_hinting@),
            self.subpixel_hinting@ == "unknown"@ ==> kv.1@ == "none"@,
            self.subpixel_hinting@ != "unknown"@ ==> kv.1@ == self.subpixel_hinting@,
    {
        if str_eq(self.subpixel_hinting.as_str(), "unknown") {
            (String::from_str("subpixel"), String::from_str("none"))
        } else {
            (String::from_str("subpixel"), self.subpixel_hinting.clone())
        }
    }

    /// This snapshot's directive line.
    pub fn to_text(&self) -> (r: String)
        ensures
            r@ == spec_output_line(OutputView::Active(self@)),
    {
        let mut r = String::from_str("output \"");
        let dn = self.display_name();
        r.append(dn.as_str());
        r.append("\" ");
        if self.active {
            r.append("enable");
            let (k, v) = self.mode();
            r.append(" ");
            r.append(k.as_str());
            r.append(" ");
            r.append(v.as_str());
            let (k, v) = self.position();
            r.append(" ");
            r.append(k.as_str());
            r.append(" ");
            r.append(v.as_str());
            let (k, v) = self.scale();
            r.append(" ");
            r.append(k.as_str());
            r.append(" ");
            r.append(v.as_str());
            let (k, v) = self.transform();
            r.append(" ");
            r.append(k.as_str());
            r.append(" ");
            r.append(v.as_str());
            let (k, v) = self.adaptive_sync();
            r.append(" ");
            r.append(k.as_str());
            r.append(" ");
            r.append(v.as_str());
        } else {
            r.append("disable");
        }
        proof {
            assert(r@ =~= spec_output_line(OutputView::Active(self@)));
        }
        r
    }
}

impl InactiveOutput {
    /// The raw compositor-assigned name.
    pub fn unstable_identifier(&self) -> (r: String)
        ensures
            r@ == self.name@,
    {
        self.name.clone()
    }

    /// The make/model/serial composite identifier.
    pub fn stable_identifier(&self) -> (r: String)
        ensures
            r@ == spec_stable_identifier(self.make@, self.model@, self.serial@),
    {
        stable_identifier_of(&self.make, &self.model, &self.serial)
    }

    /// Whether this snapshot describes an embedded panel.
    pub fn is_embedded(&self) -> (r: bool)
        ensures
            r == spec_is_embedded(self.name@),
    {
        is_embedded_name(self.name.as_str())
    }

    /// The name used when configuring this display.
    pub fn display_name(&self) -> (r: String)
        ensures
            r@ == spec_display_name(self.name@, self.make@, self.model@, self.serial@),
    {
        display_name_of(&self.name, &self.make, &self.model, &self.serial)
    }

    /// This snapshot's directive line.
    pub fn to_text(&self) -> (r: String)
        ensures
            r@ == spec_output_line(OutputView::Inactive(self@)),
    {
        let mut r = String::from_str("output \"");
        let dn = self.display_name();
        r.append(dn.as_str());
        r.append("\" ");
        if self.active {
            r.append("enable");
        } else {
            r.append("disable");
        }
        proof {
            assert(r@ =~= spec_output_line(OutputView::Inactive(self@)));
        }
        r
    }
}

impl Output {
    /// The name used when configuring this display.
    pub fn display_name(&self) -> (r: String)
        ensures
            r@ == spec_output_display_name(self@),
    {
        match self {
            Output::Active(a) => a.display_name(),
            Output::Inactive(i) => i.display_name(),
        }
    }

    /// This snapshot's directive line.
    pub fn to_text(&self) -> (r: String)
        ensures
            r@ == spec_output_line(self@),
    {
        match self {
            Output::Active(a) => a.to_text(),
            Output::Inactive(i) => i.to_text(),
        }
    }
}

impl Profile {
    /// Build a profile from a name and an ordered snapshot sequence.
    pub fn new(name: String, outputs: Vec<Output>) -> (r: Self)
        ensures
            r.name == name,
            r.outputs == outputs,
    {
        Self { name, outputs }
    }

    /// Render this profile as its exact configuration text block.
    pub fn to_text(&self) -> (r: String)
        ensures
            r@ == spec_profile_text(self@),
    {
        let mut r = String::from_str("profile ");
        r.append(self.name.as_str());
        r.append(" {\n");
        let lines = output_section(&self.outputs);
        r.append(lines.as_str());
        r.append("\n");
        let execs = exec_section(&self.outputs);
        r.append(execs.as_str());
        r.append("}");
        proof {
            assert(r@ =~= spec_profile_text(self@));
        }
        r
    }
}

/// The block of directive lines of a snapshot sequence.
fn output_section(outputs: &Vec<Output>) -> (r: String)
    ensures
        r@ == spec_output_block(outputs@.map_values(|o: Output| o@)),
{
    let ghost outs = outputs@.map_values(|o: Output| o@);
    let mut r = String::new();
    let n: usize = outputs.len();
    let mut i: usize = 0;
    while i < n
        invariant
            n == outputs.len(),
            outs == outputs@.map_values(|o: Output| o@),
            outs.len() == n,
            i <= n,
            forall|k: int| 0 <= k < n ==> outs[k] == #[trigger] outputs@[k]@,
            r@ =~= spec_output_block(outs.take(i as int)),
        decreases n - i,
    {
        let ghost r0 = r@;
        r.append("    ");
        let line = outputs[i].to_text();
        r.append(line.as_str());
        r.append("\n");
        proof {
            assert(outs.take(i + 1).drop_last() =~= outs.take(i as int));
            assert(outs.take(i + 1).last() == outs[i as int]);
            assert(r@ =~= r0 + "    "@ + spec_output_line(outs[i as int]) + "\n"@);
        }
        i += 1;
    }
    proof {
        assert(outs.take(n as int) =~= outs);
    }
    r
}

/// The exec section of a snapshot sequence: one line per active snapshot, in
/// sequence order.
fn exec_section(outputs: &Vec<Output>) -> (r: String)
    ensures
        r@ == spec_exec_block(outputs@.map_values(|o: Output| o@)),
{
    let ghost outs = outputs@.map_values(|o: Output| o@);
    let mut r = String::new();
    let n: usize = outputs.len();
    let mut j: usize = 0;
    while j < n
        invariant
            n == outputs.len(),
            outs == outputs@.map_values(|o: Output| o@),
            outs.len() == n,
            j <= n,
            forall|k: int| 0 <= k < n ==> outs[k] == #[trigger] outputs@[k]@,
            r@ =~= spec_exec_block(outs.take(j as int)),
        decreases n - j,
    {
        let ghost r0 = r@;
        match &outputs[j] {
            Output::Active(a) => {
                r.append("    exec swaymsg output \"'");
                let dn = a.display_name();
                r.append(dn.as_str());
                r.append("'\" ");
                let (k, v) = a.subpixel_hinting();
                r.append(k.as_str());
                r.append(" ");
                r.append(v.as_str());
                r.append("\n");
                proof {
                    assert(r@ =~= r0 + spec_exec_line(a@));
                }
            },
            Output::Inactive(_) => {},
        }
        proof {
            assert(outs.take(j + 1).drop_last() =~= outs.take(j as int));
            assert(outs.take(j + 1).last() == outs[j as int]);
            assert(r@ =~= r0 + spec_exec_contrib(outs[j as int]));
        }
        j += 1;
    }
    proof {
        assert(outs.take(n as int) =~= outs);
    }
    r
}

/// The subsequence of active snapshots, in their original order.
pub open spec fn spec_actives(outs: Seq<OutputView>) -> Seq<OutputView>
    decreases outs.len(),
{
    if outs.len() == 0 {
        Seq::<OutputView>::empty()
    } else if outs.last() matches OutputView::Active(_) {
        spec_actives(outs.drop_last()).push(outs.last())
    } else {
        spec_actives(outs.drop_last())
    }
}

/// Law: the exec section is exactly that of the active snapshots alone, in
/// their original order; inactive snapshots never contribute to it.
pub proof fn lemma_exec_block_from_actives(outs: Seq<OutputView>)
    ensures
        spec_exec_block(outs) == spec_exec_block(spec_actives(outs)),
    decreases outs.len(),
{
    if outs.len() == 0 {
    } else {
        lemma_exec_block_from_actives(outs.drop_last());
        let o = outs.last();
        if o matches OutputView::Active(_) {
            let acts = spec_actives(outs.drop_last());
            assert(spec_actives(outs) == acts.push(o));
            assert(acts.push(o).drop_last() =~= acts);
            assert(acts.push(o).last() == o);
        } else {
            assert(spec_exec_block(outs.drop_last()) + spec_exec_contrib(o) =~= spec_exec_block(
                outs.drop_last(),
            ));
        }
    }
}

/// Law: the rendered text is a pure function of the profile value; two
/// renderings of the same profile are identical.
pub proof fn lemma_render_deterministic(p: ProfileView, r1: Seq<char>, r2: Seq<char>)
    requires
        r1 == spec_profile_text(p),
        r2 == spec_profile_text(p),
    ensures
        r1 == r2,
{
}

/// Law: a snapshot whose unstable identifier starts with "eDP" is named by
/// that identifier; any other snapshot is named by the make/model/serial
/// composite.
pub proof fn lemma_display_name_rule(
    name: Seq<char>,
    make: Seq<char>,
    model: Seq<char>,
    serial: Seq<char>,
)
    ensures
        (name.len() >= 3 && name.take(3) == "eDP"@) ==> spec_display_name(name, make, model, serial)
            == name,
        !(name.len() >= 3 && name.take(3) == "eDP"@) ==> spec_display_name(
            name,
            make,
            model,
            serial,
        ) == spec_stable_identifier(make, model, serial),
{
    reveal_strlit("eDP");
    if name.len() >= 3 {
        if spec_is_embedded(name) {
            assert(name.take(3) =~= "eDP"@);
        }
        if name.take(3) == "eDP"@ {
            assert(name[0] == name.take(3)[0]);
            assert(name[1] == name.take(3)[1]);
            assert(name[2] == name.take(3)[2]);
        }
    }
}

/// Law: appending one snapshot to the sequence appends exactly one directive
/// line, the appended snapshot's own, to the block of output lines.
pub proof fn lemma_output_block_snoc(outs: Seq<OutputView>, o: OutputView)
    ensures
        spec_output_block(outs.push(o)) == spec_output_block(outs) + "    "@ + spec_output_line(o)
            + "\n"@,
{
    assert(outs.push(o).drop_last() =~= outs);
}

/// Law: appending one snapshot to the sequence appends exactly its exec
/// contribution: its exec line when it is active, nothing when it is
/// inactive. Contributions therefore keep the sequence order.
pub proof fn lemma_exec_block_snoc(outs: Seq<OutputView>, o: OutputView)
    ensures
        spec_exec_block(outs.push(o)) == spec_exec_block(outs) + spec_exec_contrib(o),
        o matches OutputView::Inactive(_) ==> spec_exec_block(outs.push(o)) == spec_exec_block(outs),
        o matches OutputView::Active(a) ==> spec_exec_block(outs.push(o)) == spec_exec_block(outs)
            + spec_exec_line(a),
{
    assert(outs.push(o).drop_last() =~= outs);
    if o matches OutputView::Inactive(_) {
        assert(spec_exec_block(outs) + Seq::<char>::empty() =~= spec_exec_block(outs));
    }
}

} // verus!
