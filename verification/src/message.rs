//! Messages of several shapes and the text that describes each.

use crate::decimal::{decimal, render};
use vstd::prelude::*;
use vstd::string::*;

verus! {

/// A message; each kind carries data of its own shape.
#[derive(Debug)]
pub enum Message {
    /// Asks to quit; carries nothing.
    Quit,
    /// Asks to move to a point.
    Move { x: i32, y: i32 },
    /// Carries a text.
    Write(String),
    /// Asks for a colour, given as red, green and blue.
    ChangeColor(i32, i32, i32),
}

impl Message {
    /// The description of the message: a label for its kind, followed by
    /// what it carries, numbers in decimal.
    pub open spec fn text(self) -> Seq<char> {
        match self {
            Message::Quit => "退出消息"@,
            Message::Move { x, y } => "移动到坐标: ("@ + decimal(x as int) + ", "@ + decimal(
                y as int,
            ) + ")"@,
            Message::Write(text) => "文本消息: "@ + text@,
            Message::ChangeColor(r, g, b) => "更改颜色为: rgb("@ + decimal(r as int) + ", "@
                + decimal(g as int) + ", "@ + decimal(b as int) + ")"@,
        }
    }

    /// Describes the message in one line of text.
    pub fn describe(&self) -> (line: String)
        ensures
            line@ == self.text(),
    {
        match self {
            Message::Quit => String::from_str("退出消息"),
            Message::Move { x, y } => {
                let mut line = String::from_str("移动到坐标: (");
                line.append(render(*x).as_str());
                line.append(", ");
                line.append(render(*y).as_str());
                line.append(")");
                line
            },
            Message::Write(text) => {
                let mut line = String::from_str("文本消息: ");
                line.append(text.as_str());
                line
            },
            Message::ChangeColor(r, g, b) => {
                let mut line = String::from_str("更改颜色为: rgb(");
                line.append(render(*r).as_str());
                line.append(", ");
                line.append(render(*g).as_str());
                line.append(", ");
                line.append(render(*b).as_str());
                line.append(")");
                line
            },
        }
    }
}

} // verus!
