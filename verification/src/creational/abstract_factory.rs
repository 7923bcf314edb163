//! Abstract factory: one master factory hands out whole families of UI
//! elements, so an application never names a platform widget directly.

use vstd::prelude::*;
use vstd::string::StringExecFns;

verus! {

/// An abstract button that every platform offers.
pub trait Button {
    /// The greeting this button answers a click with.
    spec fn click_note(&self) -> Seq<char>;

    fn click(&self) -> (r: String)
        ensures
            r@ == self.click_note(),
    ;
}

/// An abstract text input that every platform offers.
pub trait Input {
    spec fn input_note(&self) -> Seq<char>;

    spec fn focus_note(&self) -> Seq<char>;

    spec fn blur_note(&self) -> Seq<char>;

    fn on_input(&self, value: String) -> (r: String)
        ensures
            r@ == self.input_note(),
    ;

    fn on_focus(&self) -> (r: String)
        ensures
            r@ == self.focus_note(),
    ;

    fn on_blur(&self) -> (r: String)
        ensures
            r@ == self.blur_note(),
    ;
}

pub struct WindowsButton {}

pub struct MacButton {}

impl Button for WindowsButton {
    open spec fn click_note(&self) -> Seq<char> {
        "Hello from Fluent"@
    }

    fn click(&self) -> (r: String) {
        String::from_str("Hello from Fluent")
    }
}

impl Button for MacButton {
    open spec fn click_note(&self) -> Seq<char> {
        "Hello Cupertino"@
    }

    fn click(&self) -> (r: String) {
        String::from_str("Hello Cupertino")
    }
}

pub struct WindowsInput {}

pub struct MacInput {}

impl Input for WindowsInput {
    open spec fn input_note(&self) -> Seq<char> {
        "Fluent is typing..."@
    }

    open spec fn focus_note(&self) -> Seq<char> {
        "Fluent is now focused!"@
    }

    open spec fn blur_note(&self) -> Seq<char> {
        "Goodbye Fluent!"@
    }

    fn on_input(&self, _value: String) -> (r: String) {
        String::from_str("Fluent is typing...")
    }

    fn on_focus(&self) -> (r: String) {
        String::from_str("Fluent is now focused!")
    }

    fn on_blur(&self) -> (r: String) {
        String::from_str("Goodbye Fluent!")
    }
}

impl Input for MacInput {
    open spec fn input_note(&self) -> Seq<char> {
        "Cupertino is typing..."@
    }

    open spec fn focus_note(&self) -> Seq<char> {
        "Cupertino is now focused!"@
    }

    open spec fn blur_note(&self) -> Seq<char> {
        "Goodbye Cupertino!"@
    }

    fn on_input(&self, _value: String) -> (r: String) {
        String::from_str("Cupertino is typing...")
    }

    fn on_focus(&self) -> (r: String) {
        String::from_str("Cupertino is now focused!")
    }

    fn on_blur(&self) -> (r: String) {
        String::from_str("Goodbye Cupertino!")
    }
}

/// The abstract factory: each platform builds its own button and input.
pub trait UIManager {
    type B: Button;

    type I: Input;

    /// The greeting of every button this factory builds.
    spec fn button_click_note(&self) -> Seq<char>;

    /// The notes of every input this factory builds: typing, focus, blur.
    spec fn input_notes(&self) -> (Seq<char>, Seq<char>, Seq<char>);

    fn create_button(&self) -> (b: Self::B)
        ensures
            b.click_note() == self.button_click_note(),
    ;

    fn create_input(&self) -> (i: Self::I)
        ensures
            (i.input_note(), i.focus_note(), i.blur_note()) == self.input_notes(),
    ;
}

pub struct WindowsUIManager {}

impl UIManager for WindowsUIManager {
    type B = WindowsButton;

    type I = WindowsInput;

    open spec fn button_click_note(&self) -> Seq<char> {
        "Hello from Fluent"@
    }

    open spec fn input_notes(&self) -> (Seq<char>, Seq<char>, Seq<char>) {
        ("Fluent is typing..."@, "Fluent is now focused!"@, "Goodbye Fluent!"@)
    }

    fn create_button(&self) -> (b: Self::B) {
        WindowsButton {  }
    }

    fn create_input(&self) -> (i: Self::I) {
        WindowsInput {  }
    }
}

pub struct MacUIManager {}

impl UIManager for MacUIManager {
    type B = MacButton;

    type I = MacInput;

    open spec fn button_click_note(&self) -> Seq<char> {
        "Hello Cupertino"@
    }

    open spec fn input_notes(&self) -> (Seq<char>, Seq<char>, Seq<char>) {
        ("Cupertino is typing..."@, "Cupertino is now focused!"@, "Goodbye Cupertino!"@)
    }

    fn create_button(&self) -> (b: Self::B) {
        MacButton {  }
    }

    fn create_input(&self) -> (i: Self::I) {
        MacInput {  }
    }
}

/// The master factory: it only forwards to the platform factory it holds.
pub struct AppUIManager<M: UIManager> {
    pub os_manager: M,
}

impl<M: UIManager> AppUIManager<M> {
    pub fn create_button(&self) -> (b: M::B)
        ensures
            b.click_note() == self.os_manager.button_click_note(),
    {
        self.os_manager.create_button()
    }

    pub fn create_input(&self) -> (i: M::I)
        ensures
            (i.input_note(), i.focus_note(), i.blur_note()) == self.os_manager.input_notes(),
    {
        self.os_manager.create_input()
    }
}

} // verus!
