//! Binding of the game to the host page.
//!
//! The host page must expose five uniquely addressable regions: the four
//! colored panels and the score display. The embedder looks each one up and
//! hands the results here; if any lookup failed, initialization fails fatally
//! before any panel is touched.

use vstd::prelude::*;

verus! {

/// The five host-page regions the game needs.
#[derive(Clone, Copy, Debug, PartialEq, Eq, Structural)]
pub enum ElementRole {
    GreenButton,
    RedButton,
    YellowButton,
    BlueButton,
    UserScore,
}

/// Fatal startup failure: the host page, or one of its required regions,
/// is unavailable. No partial game ever starts after this.
#[derive(Clone, Copy, Debug, PartialEq, Eq, Structural)]
pub enum BindingError {
    /// The hosting window itself is unavailable.
    MissingWindow,
    /// The window exposes no document.
    MissingDocument,
    /// A required region could not be located in the document.
    MissingElement(ElementRole),
}

/// The five bound host-page regions, generic over the embedder's element
/// handle type.
pub struct GameElements<E> {
    pub green_button: E,
    pub red_button: E,
    pub yellow_button: E,
    pub blue_button: E,
    pub score: E,
}

impl<E> GameElements<E> {
    /// Bind the five regions from the host page's lookup results. Succeeds
    /// exactly when all five lookups found their region; otherwise reports
    /// the first missing region, in the fixed order green, red, yellow,
    /// blue, score, and no game starts.
    pub fn new(
        green: Option<E>,
        red: Option<E>,
        yellow: Option<E>,
        blue: Option<E>,
        score: Option<E>,
    ) -> (r: Result<GameElements<E>, BindingError>)
        ensures
            r is Ok <==> (green is Some && red is Some && yellow is Some && blue is Some
                && score is Some),
            r matches Ok(ge) ==> {
                &&& green == Some(ge.green_button)
                &&& red == Some(ge.red_button)
                &&& yellow == Some(ge.yellow_button)
                &&& blue == Some(ge.blue_button)
                &&& score == Some(ge.score)
            },
            green is None ==> r == Err::<GameElements<E>, BindingError>(
                BindingError::MissingElement(ElementRole::GreenButton),
            ),
            green is Some && red is None ==> r == Err::<GameElements<E>, BindingError>(
                BindingError::MissingElement(ElementRole::RedButton),
            ),
            green is Some && red is Some && yellow is None ==> r == Err::<
                GameElements<E>,
                BindingError,
            >(BindingError::MissingElement(ElementRole::YellowButton)),
            green is Some && red is Some && yellow is Some && blue is None ==> r == Err::<
                GameElements<E>,
                BindingError,
            >(BindingError::MissingElement(ElementRole::BlueButton)),
            green is Some && red is Some && yellow is Some && blue is Some && score is None
                ==> r == Err::<GameElements<E>, BindingError>(
                BindingError::MissingElement(ElementRole::UserScore),
            ),
    {
        let green_button = match green {
            Some(e) => e,
            None => {
                return Err(BindingError::MissingElement(ElementRole::GreenButton));
            },
        };
        let red_button = match red {
            Some(e) => e,
            None => {
                return Err(BindingError::MissingElement(ElementRole::RedButton));
            },
        };
        let yellow_button = match yellow {
            Some(e) => e,
            None => {
                return Err(BindingError::MissingElement(ElementRole::YellowButton));
            },
        };
        let blue_button = match blue {
            Some(e) => e,
            None => {
                return Err(BindingError::MissingElement(ElementRole::BlueButton));
            },
        };
        let score = match score {
            Some(e) => e,
            None => {
                return Err(BindingError::MissingElement(ElementRole::UserScore));
            },
        };
        Ok(GameElements { green_button, red_button, yellow_button, blue_button, score })
    }
}

} // verus!
