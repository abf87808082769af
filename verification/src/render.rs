//! The render pass: from canvas size, selection and the confirm signal to
//! the ordered list of draw commands for one frame.

use vstd::prelude::*;
use crate::layout::{button_region, button_regions, indicator_region, label_bounds, label_region,
    lemma_button_region_bounds, place_indicator, Region};
use crate::selection::{after_input, GameState};

verus! {

/// Colour of every button's border.
pub const BORDER_COLOR: u32 = 0xffc0cbff;

/// Width of every button's border.
pub const BORDER_SIZE: u32 = 1;

/// Corner radius of every button.
pub const BORDER_RADIUS: u32 = 4;

/// Colour of the labels.
pub const LABEL_COLOR: u32 = 0xffffffff;

/// The visual emphasis of a button.
#[derive(Clone, Copy, Debug, PartialEq, Eq, Structural)]
pub enum Fill {
    /// The button is not selected.
    Default,
    /// The button is selected.
    Hover,
    /// The button is selected and confirm has just been pressed.
    Pressed,
}

/// One drawing operation. Commands are executed in order, later ones on top
/// of earlier ones.
#[derive(Clone, Copy, Debug, PartialEq, Eq)]
pub enum DrawCommand {
    /// A filled rectangle with a border.
    Rect { region: Region, fill: Fill, border_color: u32, border_size: u32, border_radius: u32 },
    /// A text drawn in `region`, in the font named `font`.
    TextBox { text: &'static str, region: Region, font: &'static str, color: u32 },
    /// The graphic named `name`, drawn with its top-left corner at (`x`, `y`).
    Sprite { name: &'static str, x: i32, y: i32 },
}

/// What a draw command says, with texts and names as character sequences.
pub enum Drawing {
    Rect { region: Region, fill: Fill, border_color: u32, border_size: u32, border_radius: u32 },
    TextBox { text: Seq<char>, region: Region, font: Seq<char>, color: u32 },
    Sprite { name: Seq<char>, x: i32, y: i32 },
}

impl View for DrawCommand {
    type V = Drawing;

    open spec fn view(&self) -> Drawing {
        match *self {
            DrawCommand::Rect { region, fill, border_color, border_size, border_radius } => Drawing::Rect {
                region,
                fill,
                border_color,
                border_size,
                border_radius,
            },
            DrawCommand::TextBox { text, region, font, color } => Drawing::TextBox {
                text: text@,
                region,
                font: font@,
                color,
            },
            DrawCommand::Sprite { name, x, y } => Drawing::Sprite { name: name@, x, y },
        }
    }
}

/// What a list of draw commands says, command by command.
pub open spec fn drawings(commands: Seq<DrawCommand>) -> Seq<Drawing> {
    Seq::new(commands.len(), |i: int| commands[i]@)
}

/// The emphasis of button `i` when entry `selection` is selected.
pub open spec fn fill_of(i: int, selection: int, confirm: bool) -> Fill {
    if i == selection {
        if confirm {
            Fill::Pressed
        } else {
            Fill::Hover
        }
    } else {
        Fill::Default
    }
}

/// The colour of each emphasis, as red, green, blue and alpha bytes.
pub open spec fn fill_rgba(fill: Fill) -> u32 {
    match fill {
        Fill::Default => 0x0055ffff,
        Fill::Hover => 0x82c8ffff,
        Fill::Pressed => 0xffffffff,
    }
}

/// The text of menu entry `item`; empty for an index outside the menu.
pub open spec fn label_text(item: int) -> Seq<char> {
    if item == 0 {
        "Shop"@
    } else if item == 1 {
        "Fight"@
    } else if item == 2 {
        "Run"@
    } else if item == 3 {
        "Item"@
    } else {
        ""@
    }
}

/// The commands for button `i` with rectangle `btn`: its rectangle, its
/// label and, if it is the selected one, the indicator.
pub open spec fn button_commands(btn: Region, i: int, selection: int, confirm: bool) -> Seq<Drawing> {
    let base = seq![
        Drawing::Rect {
            region: btn,
            fill: fill_of(i, selection, confirm),
            border_color: BORDER_COLOR,
            border_size: BORDER_SIZE,
            border_radius: BORDER_RADIUS,
        },
        Drawing::TextBox {
            text: label_text(i),
            region: label_region(btn),
            font: "medium"@,
            color: LABEL_COLOR,
        },
    ];
    if i == selection {
        base.push(
            Drawing::Sprite {
                name: "Slime"@,
                x: indicator_region(btn, btn).x,
                y: indicator_region(btn, btn).y,
            },
        )
    } else {
        base
    }
}

/// The commands for the first `n` buttons, top to bottom.
pub open spec fn commands_upto(canvas_w: int, canvas_h: int, selection: int, confirm: bool, n: nat) -> Seq<Drawing>
    decreases n,
{
    if n == 0 {
        Seq::empty()
    } else {
        commands_upto(canvas_w, canvas_h, selection, confirm, (n - 1) as nat) + button_commands(
            button_region(canvas_w, canvas_h, n - 1),
            n - 1,
            selection,
            confirm,
        )
    }
}

/// The draw commands of one frame: those of the four buttons, top to bottom.
pub open spec fn draw_sequence(canvas_w: int, canvas_h: int, selection: int, confirm: bool) -> Seq<Drawing> {
    commands_upto(canvas_w, canvas_h, selection, confirm, 4)
}

impl Fill {
    /// The colour of this emphasis.
    pub fn rgba(self) -> (color: u32)
        ensures
            color == fill_rgba(self),
    {
        match self {
            Fill::Default => 0x0055ffff,
            Fill::Hover => 0x82c8ffff,
            Fill::Pressed => 0xffffffff,
        }
    }
}

/// The emphasis of button `i` when entry `selection` is selected and
/// `confirm` says whether confirm has just been pressed.
pub fn fill_for(i: usize, selection: usize, confirm: bool) -> (fill: Fill)
    ensures
        fill == fill_of(i as int, selection as int, confirm),
{
    if i == selection {
        if confirm {
            Fill::Pressed
        } else {
            Fill::Hover
        }
    } else {
        Fill::Default
    }
}

/// The text of menu entry `item`: Shop, Fight, Run, Item; empty for any
/// other index.
pub fn label(item: usize) -> (text: &'static str)
    ensures
        text@ == label_text(item as int),
{
    match item {
        0 => "Shop",
        1 => "Fight",
        2 => "Run",
        3 => "Item",
        _ => "",
    }
}

/// The name of the font in which labels are drawn.
pub fn label_font() -> (name: &'static str)
    ensures
        name@ == "medium"@,
{
    "medium"
}

/// The name of the indicator graphic.
pub fn indicator_sprite() -> (name: &'static str)
    ensures
        name@ == "Slime"@,
{
    "Slime"
}

/// The render pass. It reads nothing but its arguments: the size of the
/// canvas, the index of the selected entry and whether confirm has just been
/// pressed. For each button, top to bottom, it emits the rectangle, the
/// label and, for the selected button only, the indicator.
pub fn render(canvas_w: u32, canvas_h: u32, selection: usize, confirm: bool) -> (commands: Vec<DrawCommand>)
    requires
        canvas_w <= i32::MAX,
        canvas_h <= i32::MAX,
    ensures
        drawings(commands@) == draw_sequence(canvas_w as int, canvas_h as int, selection as int, confirm),
{
    let regions = button_regions(canvas_w, canvas_h);
    let mut commands: Vec<DrawCommand> = Vec::new();
    let mut i: usize = 0;
    proof {
        assert(drawings(commands@) =~= Seq::<Drawing>::empty());
    }
    while i < 4
        invariant
            i <= 4,
            canvas_w <= i32::MAX,
            canvas_h <= i32::MAX,
            regions@.len() == 4,
            forall|k: int| 0 <= k < 4 ==> #[trigger] regions@[k] == button_region(canvas_w as int, canvas_h as int, k),
            drawings(commands@) == commands_upto(
                canvas_w as int,
                canvas_h as int,
                selection as int,
                confirm,
                i as nat,
            ),
        decreases 4 - i,
    {
        let btn = regions[i];
        proof {
            lemma_button_region_bounds(canvas_w as int, canvas_h as int, i as int);
            assert(btn == button_region(canvas_w as int, canvas_h as int, i as int));
        }
        let ghost before = drawings(commands@);
        commands.push(
            DrawCommand::Rect {
                region: btn,
                fill: fill_for(i, selection, confirm),
                border_color: BORDER_COLOR,
                border_size: BORDER_SIZE,
                border_radius: BORDER_RADIUS,
            },
        );
        commands.push(
            DrawCommand::TextBox {
                text: label(i),
                region: label_bounds(btn),
                font: label_font(),
                color: LABEL_COLOR,
            },
        );
        if i == selection {
            let at = place_indicator(btn, btn);
            commands.push(DrawCommand::Sprite { name: indicator_sprite(), x: at.x, y: at.y });
        }
        proof {
            assert(drawings(commands@) =~= before + button_commands(btn, i as int, selection as int, confirm));
        }
        i += 1;
    }
    commands
}

impl GameState {
    /// One frame: applies the directional input, then renders. `up`, `down`
    /// and `accept` say whether the respective signal has just become
    /// active. Confirm changes no state; it only shows in the emphasis of the
    /// selected button.
    pub fn update(&mut self, up: bool, down: bool, accept: bool, canvas_w: u32, canvas_h: u32) -> (commands: Vec<DrawCommand>)
        requires
            canvas_w <= i32::MAX,
            canvas_h <= i32::MAX,
        ensures
            final(self)@ == after_input(old(self)@, up, down),
            0 <= final(self)@ < 4,
            drawings(commands@) == draw_sequence(canvas_w as int, canvas_h as int, final(self)@, accept),
    {
        self.handle_input(up, down);
        render(canvas_w, canvas_h, self.selection(), accept)
    }
}

/// The render pass is repeatable: two runs on the same canvas size,
/// selection and confirm signal give the same button rectangles and the same
/// commands in the same order.
pub proof fn lemma_render_repeatable(
    canvas_w: int,
    canvas_h: int,
    selection: int,
    confirm: bool,
    first_regions: Seq<Region>,
    second_regions: Seq<Region>,
    first: Seq<Drawing>,
    second: Seq<Drawing>,
)
    requires
        first_regions.len() == 4,
        second_regions.len() == 4,
        forall|i: int| 0 <= i < 4 ==> #[trigger] first_regions[i] == button_region(canvas_w, canvas_h, i),
        forall|i: int| 0 <= i < 4 ==> #[trigger] second_regions[i] == button_region(canvas_w, canvas_h, i),
        first == draw_sequence(canvas_w, canvas_h, selection, confirm),
        second == draw_sequence(canvas_w, canvas_h, selection, confirm),
    ensures
        first_regions == second_regions,
        first == second,
{
    assert(first_regions =~= second_regions);
}

} // verus!
