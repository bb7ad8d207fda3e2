//! The editor screen's composition: every widget of the icon editor, in
//! the order they dispatch and draw.

use vstd::prelude::*;

use crate::element::Elements;
use crate::widgets::{
    button_16, button_8, button_exit, button_save, canvas_16, canvas_8, centered_modal,
    color_candidate, color_picker_16, color_picker_216, color_picker_empty, color_picker_gray,
    color_picker_palette, color_selected, label_color_candidate, label_color_selected, label_end,
    label_new, screen, title_bar, AppWidget,
};

verus! {

/// Composes the editor's elements: the background pieces first, so the
/// interactive ones overdraw them, in the original fixed order.
pub fn build() -> (e: Elements<AppWidget>)
    ensures
        e.items@.len() == 20,
        e.items@[0].on_loop == Some(AppWidget::Screen) && e.items@[0].on_move == Some(
            AppWidget::Screen,
        ),
        e.items@[1].on_state == Some(AppWidget::SizeModal),
        e.items@[2].on_state == Some(AppWidget::TitleBar),
        e.items@[3].on_click == Some(AppWidget::Canvas16) && e.items@[3].on_state == Some(
            AppWidget::Canvas16,
        ),
        e.items@[4].on_click == Some(AppWidget::Canvas8) && e.items@[4].on_state == Some(
            AppWidget::Canvas8,
        ),
        e.items@[5].on_move == Some(AppWidget::Picker16) && e.items@[5].on_click == Some(
            AppWidget::Picker16,
        ) && e.items@[5].on_state == Some(AppWidget::Picker16),
        e.items@[6].on_move == Some(AppWidget::Picker216) && e.items@[6].on_click == Some(
            AppWidget::Picker216,
        ) && e.items@[6].on_state == Some(AppWidget::Picker216),
        e.items@[7].on_move == Some(AppWidget::PickerGray) && e.items@[7].on_click == Some(
            AppWidget::PickerGray,
        ) && e.items@[7].on_state == Some(AppWidget::PickerGray),
        e.items@[8].on_move == Some(AppWidget::PickerEmpty) && e.items@[8].on_click == Some(
            AppWidget::PickerEmpty,
        ) && e.items@[8].on_state == Some(AppWidget::PickerEmpty),
        e.items@[9].on_move == Some(AppWidget::PickerPalette) && e.items@[9].on_click == Some(
            AppWidget::PickerPalette,
        ) && e.items@[9].on_state == Some(AppWidget::PickerPalette),
        e.items@[10].on_state == Some(AppWidget::SelectedLabel),
        e.items@[11].on_state == Some(AppWidget::SelectedBox),
        e.items@[12].on_state == Some(AppWidget::CandidateBox),
        e.items@[13].on_state == Some(AppWidget::CandidateLabel),
        e.items@[14].on_state == Some(AppWidget::NewLabel),
        e.items@[15].on_click == Some(AppWidget::Size8Button) && e.items@[15].on_state == Some(
            AppWidget::Size8Button,
        ),
        e.items@[16].on_click == Some(AppWidget::Size16Button) && e.items@[16].on_state == Some(
            AppWidget::Size16Button,
        ),
        e.items@[17].on_state == Some(AppWidget::EndLabel),
        e.items@[18].on_loop == Some(AppWidget::SaveButton) && e.items@[18].on_click == Some(
            AppWidget::SaveButton,
        ) && e.items@[18].on_state == Some(AppWidget::SaveButton),
        e.items@[19].on_keypress == Some(AppWidget::ExitButton) && e.items@[19].on_click == Some(
            AppWidget::ExitButton,
        ) && e.items@[19].on_state == Some(AppWidget::ExitButton),
{
    let mut e: Elements<AppWidget> = Elements::new();
    e.push(screen::build());
    e.push(centered_modal::build());
    e.push(title_bar::build());
    e.push(canvas_16::build());
    e.push(canvas_8::build());
    e.push(color_picker_16::build());
    e.push(color_picker_216::build());
    e.push(color_picker_gray::build());
    e.push(color_picker_empty::build());
    e.push(color_picker_palette::build());
    e.push(label_color_selected::build());
    e.push(color_selected::build());
    e.push(color_candidate::build());
    e.push(label_color_candidate::build());
    e.push(label_new::build());
    e.push(button_8::build());
    e.push(button_16::build());
    e.push(label_end::build());
    e.push(button_save::build());
    e.push(button_exit::build());
    e
}

} // verus!
