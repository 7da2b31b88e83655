//! Card records and the lines of the detail pane that shows one of them.

use vstd::prelude::*;

verus! {

/// One card of the catalog, as the storage returns it.
#[derive(Clone, Debug)]
pub struct Card {
    pub name: String,
    pub set_code: String,
    pub collector_number: String,
    pub type_line: String,
    pub oracle_text: Option<String>,
    pub mana_cost: Option<String>,
}

/// One line of the detail pane; the presentation picks label and style by variant.
#[derive(Clone, Debug)]
pub enum DetailLine {
    Name(String),
    SetCode(String),
    CollectorNumber(String),
    TypeLine(String),
    ManaCost(String),
    Blank,
    OracleHeading,
    OracleText(String),
    NoOracleText,
}

/// The lines that describe `c`, top to bottom: name, set, collector number and
/// type line; the mana cost when there is one; a blank line and the oracle
/// heading; then the oracle text, or a placeholder where the card has none.
pub open spec fn detail_of(c: Card) -> Seq<DetailLine> {
    let head = seq![
        DetailLine::Name(c.name),
        DetailLine::SetCode(c.set_code),
        DetailLine::CollectorNumber(c.collector_number),
        DetailLine::TypeLine(c.type_line),
    ];
    let mana = match c.mana_cost {
        Some(m) => seq![DetailLine::ManaCost(m)],
        None => Seq::<DetailLine>::empty(),
    };
    let oracle = match c.oracle_text {
        Some(t) => DetailLine::OracleText(t),
        None => DetailLine::NoOracleText,
    };
    head + mana + seq![DetailLine::Blank, DetailLine::OracleHeading, oracle]
}

impl Card {
    /// The detail pane's lines for this card.
    pub fn detail_lines(&self) -> (r: Vec<DetailLine>)
        ensures
            r@ == detail_of(*self),
    {
        let mut r: Vec<DetailLine> = Vec::new();
        r.push(DetailLine::Name(self.name.clone()));
        r.push(DetailLine::SetCode(self.set_code.clone()));
        r.push(DetailLine::CollectorNumber(self.collector_number.clone()));
        r.push(DetailLine::TypeLine(self.type_line.clone()));
        match &self.mana_cost {
            Some(m) => r.push(DetailLine::ManaCost(m.clone())),
            None => {},
        }
        r.push(DetailLine::Blank);
        r.push(DetailLine::OracleHeading);
        match &self.oracle_text {
            Some(t) => r.push(DetailLine::OracleText(t.clone())),
            None => r.push(DetailLine::NoOracleText),
        }
        assert(r@ =~= detail_of(*self));
        r
    }
}

} // verus!
