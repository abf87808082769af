use battle_menu::layout::{button_regions, label_bounds, place_indicator, Region};
use battle_menu::render::{
    fill_for, indicator_sprite, label, label_font, render, DrawCommand, Fill, BORDER_COLOR,
    BORDER_RADIUS, BORDER_SIZE, LABEL_COLOR,
};

fn rect(x: i32, y: i32, fill: Fill) -> DrawCommand {
    DrawCommand::Rect {
        region: Region { x, y, w: 50, h: 100 },
        fill,
        border_color: 0xffc0cbff,
        border_size: 1,
        border_radius: 4,
    }
}

fn text(text: &'static str, x: i32, y: i32) -> DrawCommand {
    DrawCommand::TextBox {
        text,
        region: Region { x, y, w: 50, h: 100 },
        font: "medium",
        color: 0xffffffff,
    }
}

fn slime(x: i32, y: i32) -> DrawCommand {
    DrawCommand::Sprite { name: "Slime", x, y }
}

#[test]
fn layout_on_800_by_600() {
    let regions = button_regions(800, 600);
    assert_eq!(regions.len(), 4);
    for region in &regions {
        assert_eq!(region.w, 50);
        assert_eq!(region.h, 100);
        assert_eq!(region.x, (800 - 50) / 2);
        assert_eq!(region.x, 375);
    }
    for i in 1..4 {
        let above = regions[i - 1];
        assert_eq!(regions[i].y - (above.y + above.h as i32), 4);
    }
    assert_eq!(
        regions,
        vec![
            Region { x: 375, y: 94, w: 50, h: 100 },
            Region { x: 375, y: 198, w: 50, h: 100 },
            Region { x: 375, y: 302, w: 50, h: 100 },
            Region { x: 375, y: 406, w: 50, h: 100 },
        ]
    );
}

#[test]
fn block_is_centred_vertically() {
    let regions = button_regions(800, 600);
    let top = regions[0].y;
    let bottom = regions[3].y + regions[3].h as i32;
    assert_eq!(top, 600 - bottom);
    assert_eq!(bottom - top, 412);
}

#[test]
fn layout_on_an_empty_canvas_hangs_over_the_edges() {
    assert_eq!(
        button_regions(0, 0),
        vec![
            Region { x: -25, y: -206, w: 50, h: 100 },
            Region { x: -25, y: -102, w: 50, h: 100 },
            Region { x: -25, y: 2, w: 50, h: 100 },
            Region { x: -25, y: 106, w: 50, h: 100 },
        ]
    );
}

#[test]
fn layout_rounds_half_units_toward_zero() {
    let above = button_regions(51, 413);
    assert_eq!(above[0].x, 0);
    assert_eq!(above[0].y, 0);
    let below = button_regions(49, 411);
    assert_eq!(below[0].x, 0);
    assert_eq!(below[0].y, 0);
    let further = button_regions(47, 409);
    assert_eq!(further[0].x, -1);
    assert_eq!(further[0].y, -1);
    assert_eq!(further[3].y, 311);
}

#[test]
fn layout_on_the_largest_canvas() {
    let regions = button_regions(2147483647, 2147483647);
    assert_eq!(regions[0], Region { x: 1073741798, y: 1073741617, w: 50, h: 100 });
    assert_eq!(regions[3], Region { x: 1073741798, y: 1073741929, w: 50, h: 100 });
}

#[test]
fn label_is_inset_two_left_and_four_down() {
    let inner = label_bounds(Region { x: 375, y: 94, w: 50, h: 100 });
    assert_eq!(inner, Region { x: 377, y: 98, w: 50, h: 100 });
    let negative = label_bounds(Region { x: -25, y: -206, w: 1, h: 1 });
    assert_eq!(negative, Region { x: -23, y: -202, w: 1, h: 1 });
}

#[test]
fn indicator_of_button_size_sits_twelve_left() {
    let btn = Region { x: 375, y: 198, w: 50, h: 100 };
    assert_eq!(place_indicator(btn, btn), Region { x: 363, y: 198, w: 50, h: 100 });
}

#[test]
fn indicator_of_other_size_is_centred_on_the_button() {
    let btn = Region { x: 375, y: 198, w: 50, h: 100 };
    let graphic = Region { x: 7, y: 9, w: 16, h: 20 };
    assert_eq!(place_indicator(graphic, btn), Region { x: 363, y: 238, w: 16, h: 20 });
    let tall = Region { x: 7, y: 9, w: 16, h: 103 };
    assert_eq!(place_indicator(tall, btn), Region { x: 363, y: 197, w: 16, h: 103 });
}

#[test]
fn fills_follow_selection_and_confirm() {
    assert_eq!(fill_for(1, 1, false), Fill::Hover);
    assert_eq!(fill_for(1, 1, true), Fill::Pressed);
    assert_eq!(fill_for(0, 1, false), Fill::Default);
    assert_eq!(fill_for(0, 1, true), Fill::Default);
}

#[test]
fn fill_colours() {
    assert_eq!(Fill::Default.rgba(), 0x0055ffff);
    assert_eq!(Fill::Hover.rgba(), 0x82c8ffff);
    assert_eq!(Fill::Pressed.rgba(), 0xffffffff);
}

#[test]
fn fixed_presentation_values() {
    assert_eq!(BORDER_COLOR, 0xffc0cbff);
    assert_eq!(BORDER_SIZE, 1);
    assert_eq!(BORDER_RADIUS, 4);
    assert_eq!(LABEL_COLOR, 0xffffffff);
    assert_eq!(label_font(), "medium");
    assert_eq!(indicator_sprite(), "Slime");
}

#[test]
fn labels_of_the_four_entries() {
    assert_eq!(label(0), "Shop");
    assert_eq!(label(1), "Fight");
    assert_eq!(label(2), "Run");
    assert_eq!(label(3), "Item");
    assert_eq!(label(4), "");
}

#[test]
fn second_entry_selected_without_confirm() {
    let commands = render(800, 600, 1, false);
    let mut fills = Vec::new();
    let mut sprites = Vec::new();
    let mut last_rect_y = 0;
    for command in &commands {
        match command {
            DrawCommand::Rect { region, fill, .. } => {
                fills.push(*fill);
                last_rect_y = region.y;
            }
            DrawCommand::Sprite { name, x, y } => {
                assert_eq!(last_rect_y, 198);
                assert_eq!(*name, "Slime");
                sprites.push((*x, *y));
            }
            DrawCommand::TextBox { .. } => {}
        }
    }
    assert_eq!(fills, vec![Fill::Default, Fill::Hover, Fill::Default, Fill::Default]);
    assert_eq!(sprites, vec![(363, 198)]);
}

#[test]
fn full_command_sequence() {
    assert_eq!(
        render(800, 600, 1, false),
        vec![
            rect(375, 94, Fill::Default),
            text("Shop", 377, 98),
            rect(375, 198, Fill::Hover),
            text("Fight", 377, 202),
            slime(363, 198),
            rect(375, 302, Fill::Default),
            text("Run", 377, 306),
            rect(375, 406, Fill::Default),
            text("Item", 377, 410),
        ]
    );
}

#[test]
fn confirm_shows_as_pressed_on_the_selected_button_only() {
    let commands = render(800, 600, 3, true);
    assert_eq!(commands.len(), 9);
    assert_eq!(commands[0], rect(375, 94, Fill::Default));
    assert_eq!(commands[6], rect(375, 406, Fill::Pressed));
    assert_eq!(commands[7], text("Item", 377, 410));
    assert_eq!(commands[8], slime(363, 406));
}

#[test]
fn render_twice_gives_the_same_commands() {
    for selection in 0..4usize {
        for confirm in [false, true] {
            let first = render(320, 240, selection, confirm);
            let second = render(320, 240, selection, confirm);
            assert_eq!(first, second);
            assert_eq!(button_regions(320, 240), button_regions(320, 240));
        }
    }
}

#[test]
fn index_outside_the_menu_highlights_nothing() {
    let commands = render(800, 600, 7, true);
    assert_eq!(commands.len(), 8);
    for command in &commands {
        match command {
            DrawCommand::Rect { fill, .. } => assert_eq!(*fill, Fill::Default),
            DrawCommand::Sprite { .. } => panic!("no entry is selected"),
            DrawCommand::TextBox { .. } => {}
        }
    }
}
