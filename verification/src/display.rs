use vstd::prelude::*;
use vstd::string::StringExecFns;
use crate::style::{styled, tinted, Tint};

verus! {

/// Whether a line shows what the peer sent or a notice of the client itself.
#[derive(Clone, Copy, Debug, PartialEq, Eq, Structural)]
pub enum DisplayKind {
    Data,
    Status,
}

/// One line waiting to be shown on the terminal.
#[derive(Debug, PartialEq, Eq)]
pub struct DisplayItem {
    pub text: String,
    pub kind: DisplayKind,
}

/// Mathematical value of a [`DisplayItem`].
pub struct DisplayItemView {
    pub text: Seq<char>,
    pub kind: DisplayKind,
}

impl View for DisplayItem {
    type V = DisplayItemView;

    open spec fn view(&self) -> DisplayItemView {
        DisplayItemView { text: self.text@, kind: self.kind }
    }
}

/// The item that shows a message of the peer.
pub open spec fn data_item(text: Seq<char>) -> DisplayItemView {
    DisplayItemView { text, kind: DisplayKind::Data }
}

/// The item that shows a notice of the client.
pub open spec fn status_item(text: Seq<char>) -> DisplayItemView {
    DisplayItemView { text, kind: DisplayKind::Status }
}

/// What stands before every displayed line.
pub open spec fn inbound_marker() -> Seq<char> {
    "<< "@
}

/// The line that the terminal shows for an item: the marker, then the text,
/// which is green where the item is a notice.
pub open spec fn rendered(item: DisplayItemView) -> Seq<char> {
    match item.kind {
        DisplayKind::Data => inbound_marker() + item.text,
        DisplayKind::Status => inbound_marker() + tinted(Tint::Green, item.text),
    }
}

/// One mutation of the terminal while a line is displayed.
#[derive(Debug, PartialEq, Eq)]
pub enum TerminalOp {
    /// Take the terminal lock and erase the prompt with the input typed so far.
    LockAndErase,
    /// Write this text followed by a line break.
    WriteLine(String),
    /// Draw the prompt and the input again, then give the lock back.
    RedrawAndRelease,
}

/// Mathematical value of a [`TerminalOp`].
pub enum TerminalOpView {
    LockAndErase,
    WriteLine(Seq<char>),
    RedrawAndRelease,
}

impl View for TerminalOp {
    type V = TerminalOpView;

    open spec fn view(&self) -> TerminalOpView {
        match *self {
            TerminalOp::LockAndErase => TerminalOpView::LockAndErase,
            TerminalOp::WriteLine(s) => TerminalOpView::WriteLine(s@),
            TerminalOp::RedrawAndRelease => TerminalOpView::RedrawAndRelease,
        }
    }
}

/// The terminal mutations that display one item, in the order they are made.
pub open spec fn display_script(item: DisplayItemView) -> Seq<TerminalOpView> {
    seq![
        TerminalOpView::LockAndErase,
        TerminalOpView::WriteLine(rendered(item)),
        TerminalOpView::RedrawAndRelease,
    ]
}

impl DisplayItem {
    /// A line that shows a message of the peer.
    pub fn data(text: String) -> (res: DisplayItem)
        ensures
            res@ == data_item(text@),
    {
        DisplayItem { text, kind: DisplayKind::Data }
    }

    /// A line that shows a notice of the client.
    pub fn status(text: String) -> (res: DisplayItem)
        ensures
            res@ == status_item(text@),
    {
        DisplayItem { text, kind: DisplayKind::Status }
    }

    /// The line that the terminal shows: the marker, then the text, which
    /// is green where the item is a notice.
    pub fn render(&self) -> (res: String)
        ensures
            res@ == rendered(self@),
    {
        match self.kind {
            DisplayKind::Data => String::from_str("<< ").concat(self.text.as_str()),
            DisplayKind::Status => {
                let text = styled(Tint::Green, self.text.as_str());
                String::from_str("<< ").concat(text.as_str())
            },
        }
    }

    /// The terminal mutations that display this item: the prompt is erased
    /// under the lock before the line is written, and drawn again after it.
    pub fn script(&self) -> (res: Vec<TerminalOp>)
        ensures
            res.deep_view() == display_script(self@),
    {
        let mut ops: Vec<TerminalOp> = Vec::new();
        ops.push(TerminalOp::LockAndErase);
        ops.push(TerminalOp::WriteLine(self.render()));
        ops.push(TerminalOp::RedrawAndRelease);
        assert(ops.deep_view() =~= display_script(self@));
        ops
    }
}

impl DeepView for TerminalOp {
    type V = TerminalOpView;

    open spec fn deep_view(&self) -> TerminalOpView {
        self@
    }
}

} // verus!
