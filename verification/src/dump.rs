use vstd::prelude::*;

use crate::decimal::{decimal_spec, lemma_decimal_nonempty, lemma_parse_decimal_roundtrip, parse_i32_spec, push_decimal};
use crate::text::push_bytes;

verus! {

/// `/home/vincent/Projects/probriquegl/shaders/shader_n`, in ASCII.
pub open spec fn dump_prefix() -> Seq<u8> {
    seq![47u8, 104u8, 111u8, 109u8, 101u8, 47u8, 118u8, 105u8, 110u8, 99u8, 101u8, 110u8, 116u8, 47u8, 80u8, 114u8, 111u8, 106u8, 101u8, 99u8, 116u8, 115u8, 47u8, 112u8, 114u8, 111u8, 98u8, 114u8, 105u8, 113u8, 117u8, 101u8, 103u8, 108u8, 47u8, 115u8, 104u8, 97u8, 100u8, 101u8, 114u8, 115u8, 47u8, 115u8, 104u8, 97u8, 100u8, 101u8, 114u8, 95u8, 110u8]
}

/// `.glsl`, in ASCII.
pub open spec fn dump_suffix() -> Seq<u8> {
    seq![46u8, 103u8, 108u8, 115u8, 108u8]
}

/// The file the source of shader `shader` is written to, and read back
/// from when the shader is reloaded.
pub open spec fn dump_path_spec(shader: i32) -> Seq<u8> {
    dump_prefix() + decimal_spec(shader as int) + dump_suffix()
}

/// The path of the file that holds the source of shader `shader`.
pub fn shader_dump_path(shader: i32) -> (r: Vec<u8>)
    ensures
        r@ == dump_path_spec(shader),
{
    let prefix: [u8; 51] = [47u8, 104u8, 111u8, 109u8, 101u8, 47u8, 118u8, 105u8, 110u8, 99u8, 101u8, 110u8, 116u8, 47u8, 80u8, 114u8, 111u8, 106u8, 101u8, 99u8, 116u8, 115u8, 47u8, 112u8, 114u8, 111u8, 98u8, 114u8, 105u8, 113u8, 117u8, 101u8, 103u8, 108u8, 47u8, 115u8, 104u8, 97u8, 100u8, 101u8, 114u8, 115u8, 47u8, 115u8, 104u8, 97u8, 100u8, 101u8, 114u8, 95u8, 110u8];
    let suffix: [u8; 5] = [46u8, 103u8, 108u8, 115u8, 108u8];
    assert(prefix@ =~= dump_prefix());
    assert(suffix@ =~= dump_suffix());
    let mut out: Vec<u8> = Vec::new();
    push_bytes(&mut out, vstd::array::array_as_slice(&prefix));
    push_decimal(shader, &mut out);
    push_bytes(&mut out, vstd::array::array_as_slice(&suffix));
    assert(out@ =~= dump_path_spec(shader));
    out
}

/// How much of one source string handed to `glShaderSource` is written to
/// the dump file.
#[derive(Clone, Copy, Debug, PartialEq, Eq, Structural)]
pub enum SourceExtent {
    /// The string runs up to its terminating nul byte.
    NulTerminated,
    /// The first this many bytes: a string of given length `n` is read as a
    /// nul-terminated buffer of `n` bytes, whose last byte is left out.
    Counted(usize),
}

/// How a source string with length entry `length` is dumped; none for a
/// negative length, which is not a valid byte count.
pub open spec fn source_extent_spec(length: i32) -> Option<SourceExtent> {
    if length == 0 {
        Some(SourceExtent::NulTerminated)
    } else if length > 0 {
        Some(SourceExtent::Counted((length - 1) as usize))
    } else {
        None
    }
}

/// Reads the length entry of one shader source string: 0 (or no length
/// array) means a nul-terminated string.
pub fn dumped_source_extent(length: i32) -> (r: Option<SourceExtent>)
    ensures
        r == source_extent_spec(length),
{
    if length == 0 {
        Some(SourceExtent::NulTerminated)
    } else if length > 0 {
        Some(SourceExtent::Counted((length - 1) as usize))
    } else {
        None
    }
}


/// The dump file of shader `n` lies in the shader directory, is named
/// `shader_n` + `n` + `.glsl`, and the number in its name reads back as `n`;
/// so two different shaders never share a dump file.
pub proof fn lemma_dump_path_names_shader(n: i32)
    ensures
        ({
            let p = dump_path_spec(n);
            &&& p.len() > 56
            &&& p.take(51) =~= seq![47u8, 104u8, 111u8, 109u8, 101u8, 47u8, 118u8, 105u8, 110u8, 99u8, 101u8, 110u8, 116u8, 47u8, 80u8, 114u8, 111u8, 106u8, 101u8, 99u8, 116u8, 115u8, 47u8, 112u8, 114u8, 111u8, 98u8, 114u8, 105u8, 113u8, 117u8, 101u8, 103u8, 108u8, 47u8, 115u8, 104u8, 97u8, 100u8, 101u8, 114u8, 115u8, 47u8, 115u8, 104u8, 97u8, 100u8, 101u8, 114u8, 95u8, 110u8]
            &&& p.skip(p.len() - 5) =~= seq![46u8, 103u8, 108u8, 115u8, 108u8]
            &&& parse_i32_spec(p.subrange(51, p.len() - 5)) == Some(n)
        }),
{
    let p = dump_path_spec(n);
    let d = decimal_spec(n as int);
    lemma_parse_decimal_roundtrip(n);
    lemma_decimal_nonempty(n as int);
    assert(p.take(51) =~= dump_prefix());
    assert(p.skip(p.len() - 5) =~= dump_suffix());
    assert(p.subrange(51, p.len() - 5) =~= d);
}

/// Different shaders have different dump files.
pub proof fn lemma_dump_paths_differ(n: i32, m: i32)
    requires
        n != m,
    ensures
        dump_path_spec(n) != dump_path_spec(m),
{
    lemma_dump_path_names_shader(n);
    lemma_dump_path_names_shader(m);
}

/// A string of given length `length` is dumped as its first `length - 1`
/// bytes, a string of length 0 up to its nul byte, and a negative length is
/// refused.
pub proof fn lemma_source_extent_cases(length: i32)
    ensures
        (source_extent_spec(length) == Some(SourceExtent::NulTerminated)) <==> length == 0,
        source_extent_spec(length) matches Some(SourceExtent::Counted(n)) ==> n + 1 == length,
        (source_extent_spec(length) is None) <==> length < 0,
{
}

} // verus!
