use vstd::prelude::*;

use crate::text::bytes_equal;

verus! {

/// Where `glXGetProcAddress` takes the address of a function from.
#[derive(Clone, Copy, Debug, PartialEq, Eq, Structural)]
pub enum ProcRoute {
    /// The interposer's own `glXCreateContextAttribsARB`.
    CreateContextAttribsHook,
    /// The interposer's own `glGetString`.
    GetStringHook,
    /// The symbol as the process already sees it; when that lookup fails,
    /// the driver's `glXGetProcAddress`.
    Lookup,
}

/// `glXCreateContextAttribsARB`, in ASCII.
pub open spec fn create_context_attribs_name() -> Seq<u8> {
    seq![103u8, 108u8, 88u8, 67u8, 114u8, 101u8, 97u8, 116u8, 101u8, 67u8, 111u8, 110u8, 116u8, 101u8, 120u8, 116u8, 65u8, 116u8, 116u8, 114u8, 105u8, 98u8, 115u8, 65u8, 82u8, 66u8]
}

/// `glGetString`, in ASCII.
pub open spec fn get_string_name() -> Seq<u8> {
    seq![103u8, 108u8, 71u8, 101u8, 116u8, 83u8, 116u8, 114u8, 105u8, 110u8, 103u8]
}

/// The route for the function named `name` (without its nul byte).
pub open spec fn proc_route_spec(name: Seq<u8>) -> ProcRoute {
    if name == create_context_attribs_name() {
        ProcRoute::CreateContextAttribsHook
    } else if name == get_string_name() {
        ProcRoute::GetStringHook
    } else {
        ProcRoute::Lookup
    }
}

/// Decides where the address of the function named `name` comes from: the
/// two functions that the interposer rewrites are answered with its own.
pub fn route_proc_address(name: &[u8]) -> (r: ProcRoute)
    ensures
        r == proc_route_spec(name@),
{
    let create_context: [u8; 26] = [103u8, 108u8, 88u8, 67u8, 114u8, 101u8, 97u8, 116u8, 101u8, 67u8, 111u8, 110u8, 116u8, 101u8, 120u8, 116u8, 65u8, 116u8, 116u8, 114u8, 105u8, 98u8, 115u8, 65u8, 82u8, 66u8];
    let get_string: [u8; 11] = [103u8, 108u8, 71u8, 101u8, 116u8, 83u8, 116u8, 114u8, 105u8, 110u8, 103u8];
    assert(create_context@ =~= create_context_attribs_name());
    assert(get_string@ =~= get_string_name());
    if bytes_equal(name, vstd::array::array_as_slice(&create_context)) {
        ProcRoute::CreateContextAttribsHook
    } else if bytes_equal(name, vstd::array::array_as_slice(&get_string)) {
        ProcRoute::GetStringHook
    } else {
        ProcRoute::Lookup
    }
}


/// Only the exact name `glXCreateContextAttribsARB` is answered with the
/// interposer's context creation, only the exact name `glGetString` with
/// its `glGetString`, and every other name is looked up.
pub proof fn lemma_proc_routes(name: Seq<u8>)
    ensures
        (proc_route_spec(name) == ProcRoute::CreateContextAttribsHook) <==> name =~= seq![103u8, 108u8, 88u8, 67u8, 114u8, 101u8, 97u8, 116u8, 101u8, 67u8, 111u8, 110u8, 116u8, 101u8, 120u8, 116u8, 65u8, 116u8, 116u8, 114u8, 105u8, 98u8, 115u8, 65u8, 82u8, 66u8],
        (proc_route_spec(name) == ProcRoute::GetStringHook) <==> name =~= seq![103u8, 108u8, 71u8, 101u8, 116u8, 83u8, 116u8, 114u8, 105u8, 110u8, 103u8],
{
    assert(create_context_attribs_name() =~= seq![103u8, 108u8, 88u8, 67u8, 114u8, 101u8, 97u8, 116u8, 101u8, 67u8, 111u8, 110u8, 116u8, 101u8, 120u8, 116u8, 65u8, 116u8, 116u8, 114u8, 105u8, 98u8, 115u8, 65u8, 82u8, 66u8]);
    assert(get_string_name() =~= seq![103u8, 108u8, 71u8, 101u8, 116u8, 83u8, 116u8, 114u8, 105u8, 110u8, 103u8]);
}

} // verus!
