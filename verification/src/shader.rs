//! Shader sources.
use glsl_include::Context;
use vstd::prelude::*;
use vstd::slice::slice_to_vec;
use vstd::utf8::encode_utf8;

verus! {

#[verifier::external_type_specification]
#[verifier::external_body]
pub struct ExGlslContext<'a>(Context<'a>);

/// The named sources a shader context holds: each file name with its text.
pub uninterp spec fn glsl_context_sources(c: Context) -> Map<Seq<char>, Seq<char>>;

/// What expanding `code` against the named sources `files` gives: the
/// expanded text, or the message of the error met.
pub uninterp spec fn glsl_expansion(files: Map<Seq<char>, Seq<char>>, code: Seq<char>) -> Result<Seq<char>, Seq<char>>;

/// Calls `Context::expand` on `code`, turning an error into its message.
/// The result is a function of the context's named sources and the code
/// alone; it is left unstated beyond that name.
#[verifier::external_body]
fn expand_with(ctx: &Context, code: &str) -> (r: Result<String, String>)
    ensures
        match r {
            Ok(e) => glsl_expansion(glsl_context_sources(*ctx), code@) == Ok::<Seq<char>, Seq<char>>(e@),
            Err(m) => glsl_expansion(glsl_context_sources(*ctx), code@) == Err::<Seq<char>, Seq<char>>(m@),
        },
{
    ctx.expand(code).map_err(|e| e.to_string())
}

/// The bytes of a shader program's source, with the directives that pull
/// in other files already expanded.
pub struct Shader {
    data: Vec<u8>,
}

impl Shader {
    /// The shader's source bytes.
    pub closed spec fn spec_bytes(&self) -> Seq<u8> {
        self.data@
    }

    /// The shader whose expanded source is `expanded_code`: its bytes are
    /// the UTF-8 encoding of that text.
    pub fn from_expanded(expanded_code: &str) -> (r: Shader)
        ensures
            r.spec_bytes() == encode_utf8(expanded_code@),
    {
        Shader { data: slice_to_vec(expanded_code.as_bytes()) }
    }

    /// The shader made by expanding `code` against the sources that `ctx`
    /// holds: its bytes are the UTF-8 encoding of the expanded text; where
    /// the expansion fails, its message.
    pub fn from_context(ctx: &Context, code: &str) -> (r: Result<Shader, String>)
        ensures
            match glsl_expansion(glsl_context_sources(*ctx), code@) {
                Ok(e) => r matches Ok(s) && s.spec_bytes() == encode_utf8(e),
                Err(m) => r matches Err(x) && x@ == m,
            },
    {
        match expand_with(ctx, code) {
            Ok(expanded) => Ok(Shader::from_expanded(expanded.as_str())),
            Err(message) => Err(message),
        }
    }

    pub fn bytes(&self) -> (r: &[u8])
        ensures
            r@ == self.spec_bytes(),
    {
        self.data.as_slice()
    }
}

} // verus!
