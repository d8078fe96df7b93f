//! A frame around a page that lets the user type a filter for it.

use crate::my_event::{
    commands_view, draw_command, menu_view, AppEvent, Command, CommandView, EventView, KeyCode,
    KeyEvent, Menu,
};
use crate::page::connection_page::Instant;
use crate::text::{join2, pop_char, push_char};
use vstd::prelude::*;

verus! {

/// What a page must offer to stand inside a filter frame. The spec
/// functions say, over the page's view, what each operation does.
pub trait FilterInnerWidget: View + Sized {
    /// What arrives for the page from its stream.
    type Data;

    /// What drawing the page needs.
    type Frame;

    /// The states that the operations keep the page in.
    spec fn ready(v: Self::V) -> bool;

    /// The page after its filter is set.
    spec fn filter_set(v: Self::V, filter: Seq<char>) -> Self::V;

    /// The page after a key press.
    spec fn key_pressed(v: Self::V, key: KeyEvent) -> Self::V;

    /// The commands of a key press.
    spec fn key_commands(v: Self::V, key: KeyEvent) -> Seq<CommandView>;

    /// The page's menu.
    spec fn menu_texts() -> Seq<(Seq<char>, Seq<char>)>;

    /// The page after it was entered.
    spec fn entered(v: Self::V) -> Self::V;

    /// The commands of entering the page.
    spec fn enter_commands(v: Self::V) -> Seq<CommandView>;

    /// The page after `data` arrived at `now`.
    spec fn data_taken(v: Self::V, data: Self::Data, now: Instant) -> Self::V;

    /// The commands of `data` arriving.
    spec fn data_commands(v: Self::V, data: Self::Data) -> Seq<CommandView>;

    /// The page after it was drawn into an area of the given size.
    spec fn shown(v: Self::V, area_width: u16, area_height: u16) -> Self::V;

    /// Whether `frame` is what drawing the page into an area of the given
    /// size needs.
    spec fn framed(v: Self::V, area_width: u16, area_height: u16, frame: Self::Frame) -> bool;

    fn set_filter(&mut self, filter: &str)
        requires
            Self::ready(old(self)@),
        ensures
            Self::ready(final(self)@),
            final(self)@ == Self::filter_set(old(self)@, filter@),
    ;

    fn get_menu() -> (menu: Menu)
        ensures
            menu_view(menu) == Self::menu_texts(),
    ;

    fn on_key(&mut self, key_event: KeyEvent) -> (commands: Vec<Command>)
        requires
            Self::ready(old(self)@),
        ensures
            Self::ready(final(self)@),
            final(self)@ == Self::key_pressed(old(self)@, key_event),
            commands_view(commands@) == Self::key_commands(old(self)@, key_event),
    ;

    fn show(&mut self, area_width: u16, area_height: u16) -> (frame: Self::Frame)
        requires
            Self::ready(old(self)@),
        ensures
            Self::ready(final(self)@),
            final(self)@ == Self::shown(old(self)@, area_width, area_height),
            Self::framed(old(self)@, area_width, area_height, frame),
    ;

    fn active(&mut self) -> (commands: Vec<Command>)
        requires
            Self::ready(old(self)@),
        ensures
            Self::ready(final(self)@),
            final(self)@ == Self::entered(old(self)@),
            commands_view(commands@) == Self::enter_commands(old(self)@),
    ;

    fn on_data(&mut self, data: Self::Data, now: Instant) -> (commands: Vec<Command>)
        requires
            Self::ready(old(self)@),
        ensures
            Self::ready(final(self)@),
            final(self)@ == Self::data_taken(old(self)@, data, now),
            commands_view(commands@) == Self::data_commands(old(self)@, data),
    ;
}

/// Whether the frame passes keys on or takes them as filter text.
#[derive(Clone, Copy, Debug, PartialEq, Eq, Structural)]
enum Status {
    Normal,
    FilterEdit,
}

/// A page in a frame that takes a filter text for it.
pub struct FilterWidget<T: FilterInnerWidget> {
    filter: String,
    status: Status,
    inner_widget: T,
}

/// The state of a filter frame around a page with state `V`.
pub struct FilterView<V> {
    /// The filter text as typed so far.
    pub filter: Seq<char>,
    /// Whether keys are taken as filter text.
    pub editing: bool,
    pub inner: V,
}

/// What drawing a filter frame needs.
#[derive(Debug, PartialEq, Eq)]
pub struct FilterFrame<F> {
    /// What drawing the page needs.
    pub inner: F,
    /// The filter line under the page, if one is drawn.
    pub filter_line: Option<String>,
    /// Whether the filter line is drawn as being edited.
    pub editing: bool,
}

/// The menu while the filter is edited.
pub open spec fn edit_menu() -> Seq<(Seq<char>, Seq<char>)> {
    seq![("ENTER"@, "确认"@), ("ESC"@, "放弃"@)]
}

/// The command that replaces the menu.
pub open spec fn menu_command(menu: Seq<(Seq<char>, Seq<char>)>) -> CommandView {
    CommandView::Emit(EventView::SetMenu(menu))
}

/// The text without its last character; the empty text stays empty.
pub open spec fn without_last(text: Seq<char>) -> Seq<char> {
    if text.len() == 0 {
        text
    } else {
        text.drop_last()
    }
}

/// The filter line for a filter text.
pub open spec fn filter_line(filter: Seq<char>) -> Seq<char> {
    "过滤: "@ + filter
}

/// Height left for the page when a filter line is drawn under it.
pub open spec fn height_above_line(area_height: u16) -> u16 {
    if area_height > 0 {
        (area_height - 1) as u16
    } else {
        0
    }
}

impl<T: FilterInnerWidget> FilterWidget<T> {
    /// The frame after a key press. While keys are passed on, `/` starts
    /// editing and clears the page's filter, and every other key goes to
    /// the page. While editing, enter applies the typed filter, escape
    /// drops it, backspace and characters edit it, and other keys do
    /// nothing.
    pub open spec fn key_pressed(v: FilterView<T::V>, key: KeyEvent) -> FilterView<T::V> {
        if !v.editing {
            if key.code == KeyCode::Char('/') {
                FilterView { editing: true, inner: T::filter_set(v.inner, Seq::empty()), ..v }
            } else {
                FilterView { inner: T::key_pressed(v.inner, key), ..v }
            }
        } else {
            match key.code {
                KeyCode::Enter => FilterView {
                    editing: false,
                    inner: T::filter_set(v.inner, v.filter),
                    ..v
                },
                KeyCode::Backspace => FilterView { filter: without_last(v.filter), ..v },
                KeyCode::Esc => FilterView {
                    filter: Seq::empty(),
                    editing: false,
                    inner: T::filter_set(v.inner, Seq::empty()),
                },
                KeyCode::Char(c) => FilterView { filter: v.filter.push(c), ..v },
                _ => v,
            }
        }
    }

    /// The commands of a key press.
    pub open spec fn key_commands(v: FilterView<T::V>, key: KeyEvent) -> Seq<CommandView> {
        if !v.editing {
            if key.code == KeyCode::Char('/') {
                seq![menu_command(edit_menu())]
            } else {
                T::key_commands(v.inner, key)
            }
        } else {
            match key.code {
                KeyCode::Enter => seq![menu_command(T::menu_texts())],
                KeyCode::Backspace => seq![draw_command()],
                KeyCode::Esc => seq![menu_command(T::menu_texts())],
                KeyCode::Char(_) => seq![draw_command()],
                _ => Seq::empty(),
            }
        }
    }

    /// The menu that belongs to the frame: the editing menu while the
    /// filter is edited, else the page's menu.
    pub open spec fn menu_shown(v: FilterView<T::V>) -> Seq<(Seq<char>, Seq<char>)> {
        if v.editing {
            edit_menu()
        } else {
            T::menu_texts()
        }
    }

    /// Whether a filter line is drawn: while editing, and whenever a filter
    /// text is there.
    pub open spec fn has_line(v: FilterView<T::V>) -> bool {
        v.filter.len() > 0 || v.editing
    }

    /// Height of the page inside a frame that is drawn into an area of the
    /// given height: one line less where a filter line is drawn.
    pub open spec fn inner_height(v: FilterView<T::V>, area_height: u16) -> u16 {
        if Self::has_line(v) {
            height_above_line(area_height)
        } else {
            area_height
        }
    }

    /// Whether `frame` is what drawing the frame into an area of the given
    /// size needs: what the page needs for its part of the area, and the
    /// filter line where one is drawn.
    pub open spec fn framed(
        v: FilterView<T::V>,
        area_width: u16,
        area_height: u16,
        frame: FilterFrame<T::Frame>,
    ) -> bool {
        &&& T::framed(v.inner, area_width, Self::inner_height(v, area_height), frame.inner)
        &&& frame.editing == v.editing
        &&& match frame.filter_line {
            Some(line) => Self::has_line(v) && line@ == filter_line(v.filter),
            None => !Self::has_line(v),
        }
    }

    /// The frame after it was drawn into an area of the given size: the
    /// page is drawn into the area, less one line where a filter line is
    /// drawn.
    pub open spec fn shown(v: FilterView<T::V>, area_width: u16, area_height: u16) -> FilterView<
        T::V,
    > {
        FilterView {
            inner: T::shown(v.inner, area_width, Self::inner_height(v, area_height)),
            ..v
        }
    }
}

impl<T: FilterInnerWidget> View for FilterWidget<T> {
    type V = FilterView<T::V>;

    closed spec fn view(&self) -> FilterView<T::V> {
        FilterView {
            filter: self.filter@,
            editing: self.status == Status::FilterEdit,
            inner: self.inner_widget@,
        }
    }
}

impl<T: FilterInnerWidget> FilterWidget<T> {
    /// A frame around `inner` that passes keys on and has no filter text.
    pub fn new(inner: T) -> (widget: Self)
        ensures
            widget@ == (FilterView { filter: Seq::empty(), editing: false, inner: inner@ }),
    {
        FilterWidget { filter: String::new(), status: Status::Normal, inner_widget: inner }
    }

    /// The page inside the frame.
    pub fn inner(&self) -> (inner: &T)
        ensures
            inner@ == self@.inner,
    {
        &self.inner_widget
    }

    /// Hands `data`, which arrived at `now`, to the page.
    pub fn on_data(&mut self, data: T::Data, now: Instant) -> (commands: Vec<Command>)
        requires
            T::ready(old(self)@.inner),
        ensures
            T::ready(final(self)@.inner),
            final(self)@ == (FilterView {
                inner: T::data_taken(old(self)@.inner, data, now),
                ..old(self)@
            }),
            commands_view(commands@) == T::data_commands(old(self)@.inner, data),
    {
        self.inner_widget.on_data(data, now)
    }

    /// Enters the page.
    pub fn active(&mut self) -> (commands: Vec<Command>)
        requires
            T::ready(old(self)@.inner),
        ensures
            T::ready(final(self)@.inner),
            final(self)@ == (FilterView { inner: T::entered(old(self)@.inner), ..old(self)@ }),
            commands_view(commands@) == T::enter_commands(old(self)@.inner),
    {
        self.inner_widget.active()
    }

    /// The page's menu.
    pub fn get_menu() -> (menu: Menu)
        ensures
            menu_view(menu) == T::menu_texts(),
    {
        T::get_menu()
    }

    /// The menu that belongs to the frame as it stands.
    pub fn current_menu(&self) -> (menu: Menu)
        ensures
            menu_view(menu) == Self::menu_shown(self@),
    {
        match self.status {
            Status::FilterEdit => Self::get_menu_filter_edit(),
            Status::Normal => T::get_menu(),
        }
    }

    /// The menu while the filter is edited.
    pub fn get_menu_filter_edit() -> (menu: Menu)
        ensures
            menu_view(menu) == edit_menu(),
    {
        let mut menu: Menu = Vec::new();
        menu.push(("ENTER", "确认"));
        menu.push(("ESC", "放弃"));
        menu
    }

    /// Handles a key press.
    pub fn on_key(&mut self, key_event: KeyEvent) -> (commands: Vec<Command>)
        requires
            T::ready(old(self)@.inner),
        ensures
            T::ready(final(self)@.inner),
            final(self)@ == Self::key_pressed(old(self)@, key_event),
            commands_view(commands@) == Self::key_commands(old(self)@, key_event),
    {
        let mut commands: Vec<Command> = Vec::new();
        match self.status {
            Status::Normal => {
                match key_event.code {
                    KeyCode::Char('/') => {
                        self.status = Status::FilterEdit;
                        self.inner_widget.set_filter("");
                        commands.push(Command::Emit(AppEvent::SetMenu(Self::get_menu_filter_edit())));
                        proof {
                            reveal_strlit("");
                            assert(""@ =~= Seq::<char>::empty());
                        }
                    },
                    _ => {
                        return self.inner_widget.on_key(key_event);
                    },
                }
            },
            Status::FilterEdit => {
                match key_event.code {
                    KeyCode::Enter => {
                        self.status = Status::Normal;
                        self.inner_widget.set_filter(self.filter.as_str());
                        commands.push(Command::Emit(AppEvent::SetMenu(T::get_menu())));
                    },
                    KeyCode::Backspace => {
                        pop_char(&mut self.filter);
                        commands.push(Command::Emit(AppEvent::Draw));
                    },
                    KeyCode::Esc => {
                        self.status = Status::Normal;
                        self.filter = String::new();
                        self.inner_widget.set_filter("");
                        commands.push(Command::Emit(AppEvent::SetMenu(T::get_menu())));
                        proof {
                            reveal_strlit("");
                            assert(""@ =~= Seq::<char>::empty());
                        }
                    },
                    KeyCode::Char(c) => {
                        push_char(&mut self.filter, c);
                        commands.push(Command::Emit(AppEvent::Draw));
                    },
                    _ => {},
                }
            },
        }
        commands
    }

    /// Draws the page, and says whether and how a filter line is drawn
    /// under it.
    pub fn show(&mut self, area_width: u16, area_height: u16) -> (frame: FilterFrame<T::Frame>)
        requires
            T::ready(old(self)@.inner),
        ensures
            T::ready(final(self)@.inner),
            final(self)@ == Self::shown(old(self)@, area_width, area_height),
            Self::framed(old(self)@, area_width, area_height, frame),
    {
        let editing: bool = match self.status {
            Status::FilterEdit => true,
            Status::Normal => false,
        };
        if !self.filter.as_str().is_empty() || editing {
            let height: u16 = if area_height > 0 {
                area_height - 1
            } else {
                0
            };
            let inner = self.inner_widget.show(area_width, height);
            FilterFrame {
                inner,
                filter_line: Some(join2("过滤: ", self.filter.as_str())),
                editing,
            }
        } else {
            let inner = self.inner_widget.show(area_width, area_height);
            FilterFrame { inner, filter_line: None, editing }
        }
    }
}

} // verus!
