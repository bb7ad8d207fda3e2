//! The splash screen's composition: its logo and footer, in dispatch
//! order.

use vstd::prelude::*;

use crate::element::Elements;
use crate::widgets::{splash_footer, splash_logo, SplashWidget};

verus! {

/// Composes the splash screen's elements.
pub fn build() -> (e: Elements<SplashWidget>)
    ensures
        e.items@.len() == 2,
        e.items@[0].on_loop == Some(SplashWidget::Logo),
        e.items@[1].on_state == Some(SplashWidget::Footer),
{
    let mut e: Elements<SplashWidget> = Elements::new();
    e.push(splash_logo::build());
    e.push(splash_footer::build());
    e
}

} // verus!
