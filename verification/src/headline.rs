//! The headline game: is a headline real or made up?

use vstd::prelude::*;

verus! {

/// What the player is told once a guess is in.
#[derive(Clone, Debug, PartialEq, Eq)]
pub struct HeadlineResult {
    /// Whether the guess was right, in words.
    pub title: String,
    /// The headline, the truth and the guess.
    pub description: String,
}

/// The mathematical model of [`HeadlineResult`].
pub ghost struct HeadlineResultModel {
    pub title: Seq<char>,
    pub description: Seq<char>,
}

impl View for HeadlineResult {
    type V = HeadlineResultModel;

    open spec fn view(&self) -> HeadlineResultModel {
        HeadlineResultModel { title: self.title@, description: self.description@ }
    }
}

/// The guess is right: the first choice says that the headline is real, the
/// second that it is made up, and any other choice is wrong.
pub open spec fn is_right(choice: nat, fake: bool) -> bool {
    (choice == 1 && fake) || (choice == 0 && !fake)
}

/// What the player is told: the verdict as the title; the headline, whether
/// it is made up, and what the player took it for as the description. Every
/// choice but the first counts as taking the headline for made up.
pub open spec fn headline_result_spec(choice: nat, fake: bool, text: Seq<char>) -> HeadlineResultModel {
    HeadlineResultModel {
        title: if is_right(choice, fake) {
            "Your were correct"@
        } else {
            "Your were incorrect"@
        },
        description: "Headline: `"@ + text + "`\n\nFake: `"@ + (if fake {
            "true"@
        } else {
            "false"@
        }) + "`\n\nYour Guess: `"@ + (if choice == 0 {
            "is real"@
        } else {
            "is fake"@
        }) + "`"@,
    }
}

/// Judges a guess in the headline game.
pub fn headline_result(choice: usize, fake: bool, text: &str) -> (result: HeadlineResult)
    ensures
        result@ == headline_result_spec(choice as nat, fake, text@),
{
    let right = (choice == 1 && fake) || (choice == 0 && !fake);
    let title = if right {
        String::from_str("Your were correct")
    } else {
        String::from_str("Your were incorrect")
    };
    let mut description = String::from_str("Headline: `");
    description.append(text);
    description.append("`\n\nFake: `");
    description.append(if fake { "true" } else { "false" });
    description.append("`\n\nYour Guess: `");
    description.append(if choice == 0 { "is real" } else { "is fake" });
    description.append("`");
    HeadlineResult { title, description }
}

} // verus!
