use vstd::prelude::*;
use vampirc_uci::{UciInfoAttribute, UciMessage, UciPiece};
use crate::board::{WireMove, WireSquare};
use crate::error::ProtocolError;
use crate::text::{begins_with_word, contains_oversized_field, has_oversized_field, starts_with_word, to_chars};

verus! {

/// One tagged field of a progress line, as far as the driver reads it.
#[derive(Clone, PartialEq, Eq, Debug)]
pub enum InfoAttribute {
    /// The number of the candidate line that the report is about.
    MultiPv(u16),
    /// A score; the centipawn value is absent where the engine gave another kind of score.
    Score(Option<i32>),
    /// The moves of the reported line.
    Pv(Vec<WireMove>),
    /// A free-text diagnostic.
    Text(String),
    /// Any other field.
    Other,
}

/// The mathematical value of an [`InfoAttribute`].
pub enum InfoAttributeView {
    MultiPv(u16),
    Score(Option<i32>),
    Pv(Seq<WireMove>),
    Text(Seq<char>),
    Other,
}

impl View for InfoAttribute {
    type V = InfoAttributeView;

    open spec fn view(&self) -> InfoAttributeView {
        match self {
            InfoAttribute::MultiPv(n) => InfoAttributeView::MultiPv(*n),
            InfoAttribute::Score(cp) => InfoAttributeView::Score(*cp),
            InfoAttribute::Pv(moves) => InfoAttributeView::Pv(moves@),
            InfoAttribute::Text(text) => InfoAttributeView::Text(text@),
            InfoAttribute::Other => InfoAttributeView::Other,
        }
    }
}

/// The values of a list of attributes, in order.
pub open spec fn attribute_views(attributes: Seq<InfoAttribute>) -> Seq<InfoAttributeView> {
    attributes.map_values(|a: InfoAttribute| a@)
}

/// One line of engine output, as far as the driver tells lines apart.
#[derive(Clone, PartialEq, Eq, Debug)]
pub enum EngineMessage {
    /// A progress line with its fields in the order written.
    Info(Vec<InfoAttribute>),
    /// The terminal marker: the search is finished.
    BestMove,
    /// Anything else.
    Other,
}

/// The mathematical value of an [`EngineMessage`].
pub enum EngineMessageView {
    Info(Seq<InfoAttributeView>),
    BestMove,
    Other,
}

impl View for EngineMessage {
    type V = EngineMessageView;

    open spec fn view(&self) -> EngineMessageView {
        match self {
            EngineMessage::Info(attributes) => EngineMessageView::Info(attribute_views(attributes@)),
            EngineMessage::BestMove => EngineMessageView::BestMove,
            EngineMessage::Other => EngineMessageView::Other,
        }
    }
}

/// What `vampirc_uci::parse_one` makes of a line, reduced to what the driver reads.
pub uninterp spec fn parsed_message(line: Seq<char>) -> EngineMessageView;

/// The line opens with the word that starts a progress report.
pub open spec fn is_progress_line(line: Seq<char>) -> bool {
    begins_with_word(line, "info"@)
}

/// The line opens with the word that starts the terminal marker.
pub open spec fn is_terminal_line(line: Seq<char>) -> bool {
    begins_with_word(line, "bestmove"@)
}

/// The lines that are handed to the parser: terminal markers, and progress reports in
/// which no depth is written with three digits above 255.
pub open spec fn parser_accepts(line: Seq<char>) -> bool {
    ||| is_progress_line(line) && !has_oversized_field(line, "depth"@)
    ||| is_terminal_line(line)
}

/// What a line of engine output means to the driver. Only a line that opens with `info` or
/// `bestmove` can be a progress report or a terminal marker; every other line is `Other`
/// without being parsed. A progress report whose depth does not fit the parser's byte is a
/// protocol violation.
pub open spec fn line_message(line: Seq<char>) -> Result<EngineMessageView, ProtocolError> {
    if is_progress_line(line) {
        if has_oversized_field(line, "depth"@) {
            Err(ProtocolError::FieldOutOfRange)
        } else {
            Ok(parsed_message(line))
        }
    } else if is_terminal_line(line) {
        Ok(parsed_message(line))
    } else {
        Ok(EngineMessageView::Other)
    }
}

/// Calls `vampirc_uci::parse_one` and keeps of its result what the driver reads: the kind of
/// message and, of a progress line, the candidate-line number, the centipawn score, the moves
/// and the diagnostic text, each field moved over unchanged. The result is named, not
/// stated: `parsed_message`. The parser reads the depth and selective depth of a progress line
/// into a byte and stops the program where three digits write more than 255; `requires`
/// leaves such lines out, and all lines that open with another word than `info` or `bestmove`.
#[verifier::external_body]
fn parse_line(line: &str) -> (message: EngineMessage)
    requires
        parser_accepts(line@),
    ensures
        message@ == parsed_message(line@),
{
    match vampirc_uci::parse_one(line) {
        UciMessage::Info(attributes) => EngineMessage::Info(attributes.into_iter().map(|a| match a {
            UciInfoAttribute::MultiPv(n) => InfoAttribute::MultiPv(n),
            UciInfoAttribute::Score { cp, .. } => InfoAttribute::Score(cp),
            UciInfoAttribute::Pv(moves) => InfoAttribute::Pv(moves.iter().map(|m| WireMove {
                from: WireSquare { file: m.from.file, rank: m.from.rank },
                to: WireSquare { file: m.to.file, rank: m.to.rank },
                promotion: m.promotion.map(UciPiece::as_char)
            }).collect()),
            UciInfoAttribute::String(text) => InfoAttribute::Text(text),
            _ => InfoAttribute::Other
        }).collect()),
        UciMessage::BestMove { .. } => EngineMessage::BestMove,
        _ => EngineMessage::Other
    }
}

/// Reads one line of engine output.
pub fn classify_line(line: &str) -> (message: Result<EngineMessage, ProtocolError>)
    ensures
        match line_message(line@) {
            Ok(view) => message matches Ok(m) && m@ == view,
            Err(error) => message matches Err(e) && e == error,
        },
{
    let chars = to_chars(line);
    if starts_with_word(&chars, "info") {
        if contains_oversized_field(&chars, "depth") {
            Err(ProtocolError::FieldOutOfRange)
        } else {
            Ok(parse_line(line))
        }
    } else if starts_with_word(&chars, "bestmove") {
        Ok(parse_line(line))
    } else {
        Ok(EngineMessage::Other)
    }
}

} // verus!
