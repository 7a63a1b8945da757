//! The instructions this engine sends to the inference oracle.
//!
//! Each function builds the exact text of one instruction; the contracts pin
//! the text down to the character, so callers can state precisely what a
//! request holds. The oracle is asked for strict JSON-only answers.

use vstd::prelude::*;

verus! {

/// The fixed role instruction for checking a guess against the secret.
pub open spec fn check_guess_system_prompt_spec() -> Seq<char> {
    "You are a helpful assistant that checks if a guess is correct for a secret guessing game.\nYou will be given a guess and a secret, and you will need to determine if the guess is correct.\nYou will return a JSON object with the following fields:\n- `is_correct`: a boolean indicating if the guess is correct\n- `explanation`: a string explaining why the guess is correct or incorrect\nIn order to check if the guess is correct, you will need to compare the guess with the secret and\nsee if they either are exactly the same or if they have the same exact semantic meaning. That is, if\nthey refer to the same thing or concept in a direct way.\nFor example:\n- 'hello' and 'hello' are exactly the same\n- 'hello' and 'HELLO' are not exactly the same, but they have the same semantic meaning\n- 'hello' and 'world' are not exactly the same, and they do not have the same semantic meaning\n- 'Imperial Rome' and 'Roman Empire' have the same semantic meaning\n- 'Imperial Rome' and 'Byzantine Empire' do not have the same semantic meaning\n- 'Neil Armstrong' and 'First Man on the Moon' have the same semantic meaning\nOutput your answer in JSON format, following the schema defined above, and nothing else.\n"@
}

/// The question put to the oracle for one guess: the guess, the secret, and
/// the ask.
pub open spec fn check_guess_user_prompt_spec(guess: Seq<char>, secret: Seq<char>) -> Seq<char> {
    "The guess is: "@ + guess + "\nThe secret is: "@ + secret + "\nIs the guess correct?"@
}

/// The fixed instruction for generating a fresh secret: a single, obscure,
/// common English noun, delivered as strict JSON.
pub open spec fn create_secret_prompt_spec() -> Seq<char> {
    "You are a creative and game-designing AI. Your sole task is to produce a single, random English noun, to be used as the secret for a guessing game.\n\nConstraints:\n1. The noun must be a single word (no spaces).\n2. It must not be a proper noun or brand name (e.g., 'London', 'Google' are disallowed).\n3. You must ONLY output valid JSON in this exact structure:\n\n{\n    \"secret\": \"<the noun>\"\n}\n\n4. The noun should be difficult to guess, and not something that is commonly known, to make the game more engaging.\n5. Do not add any other text, commentary, disclaimers, or formatting - just the JSON.\n6. Do not reveal or describe your internal reasoning about how you chose the noun.\n\nYour output must be the final answer. Nothing else.\n"@
}

/// The instruction for generating a hint about the current secret.
pub open spec fn create_hint_prompt_spec(secret: Seq<char>) -> Seq<char> {
    "You are the game master of a secret guessing game. The secret is: "@ + secret
        + "\nProduce a single short hint that points players toward the secret without ever naming it or any direct variant of it.\nYou must ONLY output valid JSON in this exact structure:\n\n{\n    \"hint\": \"<the hint>\"\n}\n\nDo not add any other text, commentary, disclaimers, or formatting - just the JSON.\n"@
}

/// The fixed instruction for drafting a public game announcement.
pub open spec fn interact_with_social_media_prompt_spec() -> Seq<char> {
    "You are the public voice of a secret guessing game. Draft a single short post announcing the game update you are given, in a playful tone, without revealing the secret or any hint beyond what you are given.\nOutput only the text of the post, and nothing else.\n"@
}

/// The two instructions for checking a guess: the fixed role text, and the
/// question naming the guess and the live secret.
pub fn check_guess_prompt(guess: &str, secret: &str) -> (r: (String, String))
    ensures
        r.0@ == check_guess_system_prompt_spec(),
        r.1@ == check_guess_user_prompt_spec(guess@, secret@),
{
    let system_prompt = String::from_str(
        "You are a helpful assistant that checks if a guess is correct for a secret guessing game.\nYou will be given a guess and a secret, and you will need to determine if the guess is correct.\nYou will return a JSON object with the following fields:\n- `is_correct`: a boolean indicating if the guess is correct\n- `explanation`: a string explaining why the guess is correct or incorrect\nIn order to check if the guess is correct, you will need to compare the guess with the secret and\nsee if they either are exactly the same or if they have the same exact semantic meaning. That is, if\nthey refer to the same thing or concept in a direct way.\nFor example:\n- 'hello' and 'hello' are exactly the same\n- 'hello' and 'HELLO' are not exactly the same, but they have the same semantic meaning\n- 'hello' and 'world' are not exactly the same, and they do not have the same semantic meaning\n- 'Imperial Rome' and 'Roman Empire' have the same semantic meaning\n- 'Imperial Rome' and 'Byzantine Empire' do not have the same semantic meaning\n- 'Neil Armstrong' and 'First Man on the Moon' have the same semantic meaning\nOutput your answer in JSON format, following the schema defined above, and nothing else.\n",
    );
    let mut user_prompt = String::from_str("The guess is: ");
    user_prompt.append(guess);
    user_prompt.append("\nThe secret is: ");
    user_prompt.append(secret);
    user_prompt.append("\nIs the guess correct?");
    (system_prompt, user_prompt)
}

/// The instruction for generating a fresh secret.
pub fn create_secret_prompt() -> (r: String)
    ensures
        r@ == create_secret_prompt_spec(),
{
    String::from_str(
        "You are a creative and game-designing AI. Your sole task is to produce a single, random English noun, to be used as the secret for a guessing game.\n\nConstraints:\n1. The noun must be a single word (no spaces).\n2. It must not be a proper noun or brand name (e.g., 'London', 'Google' are disallowed).\n3. You must ONLY output valid JSON in this exact structure:\n\n{\n    \"secret\": \"<the noun>\"\n}\n\n4. The noun should be difficult to guess, and not something that is commonly known, to make the game more engaging.\n5. Do not add any other text, commentary, disclaimers, or formatting - just the JSON.\n6. Do not reveal or describe your internal reasoning about how you chose the noun.\n\nYour output must be the final answer. Nothing else.\n",
    )
}

/// The instruction for generating a hint about the current secret.
pub fn create_hint_prompt(secret: &str) -> (r: String)
    ensures
        r@ == create_hint_prompt_spec(secret@),
{
    let mut prompt = String::from_str(
        "You are the game master of a secret guessing game. The secret is: ",
    );
    prompt.append(secret);
    prompt.append(
        "\nProduce a single short hint that points players toward the secret without ever naming it or any direct variant of it.\nYou must ONLY output valid JSON in this exact structure:\n\n{\n    \"hint\": \"<the hint>\"\n}\n\nDo not add any other text, commentary, disclaimers, or formatting - just the JSON.\n",
    );
    prompt
}

/// The instruction for drafting a public game announcement.
pub fn interact_with_social_media_prompt() -> (r: String)
    ensures
        r@ == interact_with_social_media_prompt_spec(),
{
    String::from_str(
        "You are the public voice of a secret guessing game. Draft a single short post announcing the game update you are given, in a playful tone, without revealing the secret or any hint beyond what you are given.\nOutput only the text of the post, and nothing else.\n",
    )
}

} // verus!
