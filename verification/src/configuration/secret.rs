//! A wrapper that keeps sensitive settings out of logs and other output.

use vstd::prelude::*;

verus! {

/// A sensitive string, such as a password or an authorization token.
///
/// The type has no formatting trait: the only rendering it offers is
/// [`Secret::redacted`], and the only way to the plain text is
/// [`Secret::expose_secret`].
pub struct Secret {
    inner: String,
}

impl View for Secret {
    type V = Seq<char>;

    /// The plain text that the secret wraps.
    closed spec fn view(&self) -> Seq<char> {
        self.inner@
    }
}

impl Clone for Secret {
    fn clone(&self) -> (copy: Self)
        ensures
            copy@ == self@,
    {
        Secret { inner: self.inner.clone() }
    }
}

impl Secret {
    /// What every secret renders as.
    pub open spec fn placeholder() -> Seq<char> {
        "[REDACTED]"@
    }

    /// Wraps `plain`.
    pub fn new(plain: String) -> (secret: Secret)
        ensures
            secret@ == plain@,
    {
        Secret { inner: plain }
    }

    /// The plain text, for the one call site that needs it.
    pub fn expose_secret(&self) -> (plain: &String)
        ensures
            plain@ == self@,
    {
        &self.inner
    }

    /// What the secret renders as: the placeholder, whatever the secret holds.
    pub open spec fn rendering(self) -> Seq<char> {
        Secret::placeholder()
    }

    /// The rendering of the secret for display and logging.
    pub fn redacted(&self) -> (shown: String)
        ensures
            shown@ == self.rendering(),
    {
        String::from_str("[REDACTED]")
    }
}

/// Whether `needle` occurs in `haystack` as a contiguous run of characters.
pub open spec fn occurs_in(needle: Seq<char>, haystack: Seq<char>) -> bool {
    exists|start: int|
        0 <= start && start + needle.len() <= haystack.len() && #[trigger] haystack.subrange(
            start,
            start + needle.len(),
        ) == needle
}

/// The rendering of a secret never holds its plain text, unless the plain
/// text is one that the placeholder itself holds (the empty text, or a part
/// of the placeholder).
pub proof fn lemma_rendering_hides_plain_text(secret: Secret)
    requires
        !occurs_in(secret@, Secret::placeholder()),
    ensures
        !occurs_in(secret@, secret.rendering()),
{
}

/// A plain text longer than the placeholder never shows in the rendering.
pub proof fn lemma_rendering_hides_long_plain_text(secret: Secret)
    requires
        secret@.len() > 10,
    ensures
        !occurs_in(secret@, secret.rendering()),
{
    reveal_strlit("[REDACTED]");
}

/// Two secrets render alike, whatever they hold.
pub proof fn lemma_rendering_is_uniform(first: Secret, second: Secret)
    ensures
        first.rendering() == second.rendering(),
{
}

} // verus!
