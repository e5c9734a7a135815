//! The walk over the descriptors below a configuration: interfaces, their
//! alternate settings, and the endpoints of each. Every descriptor visited
//! gives one report line.

use vstd::prelude::*;
use vstd::string::*;

use crate::os_usb::classify::{
    desc_type_label, desc_type_str, ep_direction_label, ep_direction_str, ep_xfer_type_label,
    ep_xfer_type_str, ENDPOINT_ADDRESS_MASK,
};
use crate::os_usb::descriptor::{
    EndpointDescriptor, Interface, InterfaceDescriptor, InterfaceDescriptorView, InterfaceView,
};
use crate::text::{
    decimal, emit, lemma_digits_injective, push_decimal, push_signed, signed_decimal,
};

verus! {

/// The report line of the endpoint at `index` of its alternate setting.
pub open spec fn endpoint_line(ep: EndpointDescriptor, index: nat) -> Seq<char> {
    "---->"@ + desc_type_label(ep.descriptor_type as u32) + "["@ + decimal(index)
        + "], addr number: "@ + decimal(
        (ep.endpoint_address & ENDPOINT_ADDRESS_MASK as u8) as nat,
    ) + ", direction: "@ + ep_direction_label(ep.endpoint_address as u32) + ", xfer type: "@
        + ep_xfer_type_label(ep.attributes as u32)
}

/// The report lines of the first `count` endpoints of `eps`: one line
/// each, in ascending order.
pub open spec fn endpoint_lines(eps: Seq<EndpointDescriptor>, count: nat) -> Seq<Seq<char>> {
    Seq::new(count, |i: int| endpoint_line(eps[i], i as nat))
}

/// The summary line of the alternate setting at `index` of its interface.
pub open spec fn if_desc_line(desc: InterfaceDescriptorView, index: nat) -> Seq<char> {
    "--->"@ + desc_type_label(desc.descriptor_type as u32) + "["@ + decimal(index)
        + "], number of endpoints: "@ + decimal(desc.num_endpoints as nat)
}

/// What the walk reports of one alternate setting: its summary line, then
/// the lines of its endpoints.
pub open spec fn if_desc_block(desc: InterfaceDescriptorView, index: nat) -> Seq<Seq<char>> {
    seq![if_desc_line(desc, index)] + endpoint_lines(desc.endpoints, desc.num_endpoints as nat)
}

/// The report of the first `count` alternate settings of `descs`, in
/// ascending order; nothing where `count` is not positive.
pub open spec fn if_desc_lines(descs: Seq<InterfaceDescriptorView>, count: int) -> Seq<Seq<char>>
    decreases count,
{
    if count <= 0 {
        Seq::empty()
    } else {
        if_desc_lines(descs, count - 1) + if_desc_block(descs[count - 1], (count - 1) as nat)
    }
}

/// The summary line of the interface at `index` of its configuration.
pub open spec fn interface_line(interface: InterfaceView, index: nat) -> Seq<char> {
    "-->interface["@ + decimal(index) + "], number of descriptors: "@ + signed_decimal(
        interface.num_altsetting as int,
    )
}

/// What the walk reports of one interface: its summary line, then the
/// report of its alternate settings.
pub open spec fn interface_block(interface: InterfaceView, index: nat) -> Seq<Seq<char>> {
    seq![interface_line(interface, index)] + if_desc_lines(
        interface.altsetting,
        interface.num_altsetting as int,
    )
}

/// The report of the first `count` interfaces of `ifs`, in ascending
/// order.
pub open spec fn interface_lines(ifs: Seq<InterfaceView>, count: nat) -> Seq<Seq<char>>
    decreases count,
{
    if count == 0 {
        Seq::empty()
    } else {
        interface_lines(ifs, (count - 1) as nat) + interface_block(
            ifs[count - 1],
            (count - 1) as nat,
        )
    }
}

/// Writes the report line of an endpoint.
fn endpoint_text(ep: &EndpointDescriptor, index: u8) -> (line: String)
    ensures
        line@ == endpoint_line(*ep, index as nat),
{
    let mut line = String::from_str("---->");
    line.append(desc_type_str(ep.descriptor_type as u32));
    line.append("[");
    push_decimal(&mut line, index as u64);
    line.append("], addr number: ");
    push_decimal(&mut line, (ep.endpoint_address & ENDPOINT_ADDRESS_MASK as u8) as u64);
    line.append(", direction: ");
    line.append(ep_direction_str(ep.endpoint_address as u32));
    line.append(", xfer type: ");
    line.append(ep_xfer_type_str(ep.attributes as u32));
    line
}

/// Writes the summary line of an alternate setting.
fn if_desc_text(desc: &InterfaceDescriptor, index: i32) -> (line: String)
    requires
        0 <= index,
    ensures
        line@ == if_desc_line(desc@, index as nat),
{
    let mut line = String::from_str("--->");
    line.append(desc_type_str(desc.descriptor_type as u32));
    line.append("[");
    push_decimal(&mut line, index as u64);
    line.append("], number of endpoints: ");
    push_decimal(&mut line, desc.num_endpoints as u64);
    line
}

/// Writes the summary line of an interface.
fn interface_text(interface: &Interface, index: u8) -> (line: String)
    ensures
        line@ == interface_line(interface@, index as nat),
{
    let mut line = String::from_str("-->interface[");
    push_decimal(&mut line, index as u64);
    line.append("], number of descriptors: ");
    push_signed(&mut line, interface.num_altsetting as i64);
    line
}

/// Reports the first `num_eps` endpoints of `eps`: one line for each, in
/// ascending order of the index, and nothing where `num_eps` is zero.
pub fn dev_eps_iterate(eps: &[EndpointDescriptor], num_eps: u8, out: &mut Vec<String>)
    requires
        num_eps as int <= eps@.len(),
    ensures
        final(out).deep_view() == old(out).deep_view() + endpoint_lines(eps@, num_eps as nat),
        final(out)@.len() == old(out)@.len() + num_eps,
{
    let mut i: u8 = 0;
    while i < num_eps
        invariant
            i <= num_eps,
            num_eps as int <= eps@.len(),
            out.deep_view() == old(out).deep_view() + endpoint_lines(eps@, i as nat),
        decreases num_eps - i,
    {
        let ghost before = out.deep_view();
        emit(out, endpoint_text(&eps[i as usize], i));
        assert(endpoint_lines(eps@, (i + 1) as nat) =~= endpoint_lines(eps@, i as nat).push(
            endpoint_line(eps@[i as int], i as nat),
        ));
        assert(out.deep_view() =~= old(out).deep_view() + endpoint_lines(eps@, (i + 1) as nat));
        i = i + 1;
    }
}

/// Reports the first `num_descs` alternate settings of `if_descs`, in
/// ascending order of the index: for each its summary line, then its
/// endpoints. Nothing is reported where `num_descs` is not positive.
pub fn dev_if_descs_iterate(if_descs: &[InterfaceDescriptor], num_descs: i32, out: &mut Vec<String>)
    requires
        num_descs as int <= if_descs@.len(),
        forall|i: int| 0 <= i < num_descs ==> (#[trigger] if_descs@[i])@.wf(),
    ensures
        final(out).deep_view() == old(out).deep_view() + if_desc_lines(
            if_descs.deep_view(),
            num_descs as int,
        ),
{
    let mut i: i32 = 0;
    while i < num_descs
        invariant
            0 <= i,
            i <= num_descs || i == 0,
            num_descs as int <= if_descs@.len(),
            forall|i: int| 0 <= i < num_descs ==> (#[trigger] if_descs@[i])@.wf(),
            out.deep_view() == old(out).deep_view() + if_desc_lines(
                if_descs.deep_view(),
                i as int,
            ),
        decreases num_descs - i,
    {
        let desc = &if_descs[i as usize];
        assert(if_descs.deep_view()[i as int] == desc@);
        assert(desc@.wf());
        let ghost done = if_desc_lines(if_descs.deep_view(), i as int);
        emit(out, if_desc_text(desc, i));
        dev_eps_iterate(desc.endpoints.as_slice(), desc.num_endpoints, out);
        assert(out.deep_view() =~= old(out).deep_view() + (done + if_desc_block(
            desc@,
            i as nat,
        )));
        i = i + 1;
    }
}

/// Reports the first `num_ifs` interfaces of `ifs`, in ascending order of
/// the index: for each its summary line, then its alternate settings.
pub fn dev_ifs_iterate(ifs: &[Interface], num_ifs: u8, out: &mut Vec<String>)
    requires
        num_ifs as int <= ifs@.len(),
        forall|i: int| 0 <= i < num_ifs ==> (#[trigger] ifs@[i])@.wf(),
    ensures
        final(out).deep_view() == old(out).deep_view() + interface_lines(
            ifs.deep_view(),
            num_ifs as nat,
        ),
{
    let mut i: u8 = 0;
    while i < num_ifs
        invariant
            i <= num_ifs,
            num_ifs as int <= ifs@.len(),
            forall|i: int| 0 <= i < num_ifs ==> (#[trigger] ifs@[i])@.wf(),
            out.deep_view() == old(out).deep_view() + interface_lines(ifs.deep_view(), i as nat),
        decreases num_ifs - i,
    {
        let interface = &ifs[i as usize];
        assert(ifs.deep_view()[i as int] == interface@);
        assert(interface@.wf());
        let ghost done = interface_lines(ifs.deep_view(), i as nat);
        emit(out, interface_text(interface, i));
        let settings = interface.altsetting.as_slice();
        assert(settings.deep_view() =~= interface@.altsetting);
        assert forall|j: int| 0 <= j < interface.num_altsetting implies (#[trigger] settings@[j])@.wf() by {
            assert(interface@.altsetting[j] == settings@[j]@);
        }
        dev_if_descs_iterate(settings, interface.num_altsetting, out);
        assert(out.deep_view() =~= old(out).deep_view() + (done + interface_block(
            interface@,
            i as nat,
        )));
        i = i + 1;
    }
}

/// Whether `text` stands somewhere in `line`.
pub open spec fn mentions(line: Seq<char>, text: Seq<char>) -> bool {
    exists|at: int|
        0 <= at && at + text.len() <= line.len() && #[trigger] line.subrange(
            at,
            at + text.len(),
        ) == text
}

/// The way a report line names the position of what it reports: the
/// decimal digits of the position between square brackets.
pub open spec fn index_tag(index: nat) -> Seq<char> {
    "["@ + decimal(index) + "]"@
}

/// The line of an endpoint names the endpoint's position.
pub proof fn lemma_endpoint_line_names_index(ep: EndpointDescriptor, index: nat)
    ensures
        mentions(endpoint_line(ep, index), index_tag(index)),
{
    reveal_strlit("[");
    reveal_strlit("]");
    reveal_strlit("], addr number: ");
    let line = endpoint_line(ep, index);
    let tag = index_tag(index);
    let at = ("---->"@ + desc_type_label(ep.descriptor_type as u32)).len() as int;
    assert(line.subrange(at, at + tag.len()) =~= tag);
}

/// The walk over `count` endpoints reports exactly `count` lines. The
/// line at each place names that place, so the places are named in
/// ascending order from zero, and no two of them alike.
pub proof fn lemma_endpoint_lines_indexed(eps: Seq<EndpointDescriptor>, count: nat)
    ensures
        endpoint_lines(eps, count).len() == count,
        forall|i: int|
            0 <= i < count ==> mentions(#[trigger] endpoint_lines(eps, count)[i], index_tag(i as nat)),
        forall|i: nat, j: nat|
            #![trigger index_tag(i), index_tag(j)]
            i != j ==> index_tag(i) != index_tag(j),
{
    assert forall|i: int| 0 <= i < count implies mentions(
        #[trigger] endpoint_lines(eps, count)[i],
        index_tag(i as nat),
    ) by {
        lemma_endpoint_line_names_index(eps[i], i as nat);
    }
    assert forall|i: nat, j: nat| #![trigger index_tag(i), index_tag(j)] i != j implies index_tag(
        i,
    ) != index_tag(j) by {
        lemma_index_tags_differ(i, j);
    }
}

/// Different positions are named differently.
pub proof fn lemma_index_tags_differ(a: nat, b: nat)
    ensures
        index_tag(a) == index_tag(b) ==> a == b,
{
    reveal_strlit("[");
    reveal_strlit("]");
    if index_tag(a) == index_tag(b) {
        assert("["@.len() == 1 && "]"@.len() == 1);
        assert(index_tag(a).len() == decimal(a).len() + 2);
        assert(index_tag(b).len() == decimal(b).len() + 2);
        assert(index_tag(a).subrange(1, 1 + decimal(a).len() as int) =~= decimal(a));
        assert(index_tag(b).subrange(1, 1 + decimal(b).len() as int) =~= decimal(b));
        lemma_digits_injective(a, b, 10);
    }
}

} // verus!
