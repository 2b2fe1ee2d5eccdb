//! The hider's cards: bonuses and curses, drawn into a hand and played from it.

use vstd::prelude::*;
use crate::ids::Identified;
use crate::text::{decimal, decimal_text};

verus! {

/// Whether a card helps the hider or hinders the seekers.
#[derive(Clone, Copy, Debug, PartialEq, Eq, Structural)]
pub enum CardType {
    Bonus,
    Curse,
}

/// A card's face: name, effect, optional flavour text and type.
#[derive(Clone, Debug, PartialEq)]
pub struct Card {
    pub name: String,
    pub effect: String,
    pub flavor_text: Option<String>,
    pub card_type: CardType,
}

/// A card in a hider's hand.
#[derive(Clone, Debug, PartialEq)]
pub struct DrawnCard {
    pub id: u128,
    pub card: Card,
}

impl Identified for DrawnCard {
    open spec fn key(&self) -> u128 {
        self.id
    }

    fn id(&self) -> (r: u128) {
        self.id
    }
}

pub open spec fn card_type_class_text(t: CardType) -> Seq<char> {
    match t {
        CardType::Bonus => "card--bonus"@,
        CardType::Curse => "card--curse"@,
    }
}

pub open spec fn card_type_label_text(t: CardType) -> Seq<char> {
    match t {
        CardType::Bonus => "Bonus"@,
        CardType::Curse => "Curse"@,
    }
}

/// The style modifier of a card of this type.
pub fn card_type_class(t: CardType) -> (s: &'static str)
    ensures
        s@ == card_type_class_text(t),
{
    match t {
        CardType::Bonus => "card--bonus",
        CardType::Curse => "card--curse",
    }
}

/// The badge shown on a card of this type.
pub fn card_type_label(t: CardType) -> (s: &'static str)
    ensures
        s@ == card_type_label_text(t),
{
    match t {
        CardType::Bonus => "Bonus",
        CardType::Curse => "Curse",
    }
}

/// Adds newly drawn cards at the end of the hand, in the order drawn.
pub fn add_drawn_cards(hand: &mut Vec<DrawnCard>, new_cards: Vec<DrawnCard>)
    ensures
        final(hand)@ == old(hand)@ + new_cards@,
{
    let mut new_cards = new_cards;
    hand.append(&mut new_cards);
}

pub open spec fn hand_heading_text(n: nat) -> Seq<char> {
    "Your Hand ("@ + decimal(n) + " cards)"@
}

/// The heading of the hand: "Your Hand ({n} cards)".
pub fn hand_heading(n: usize) -> (s: String)
    ensures
        s@ == hand_heading_text(n as nat),
{
    let mut s = "Your Hand (".to_owned();
    s.append(decimal_text(n).as_str());
    s.append(" cards)");
    s
}

} // verus!
