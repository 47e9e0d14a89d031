use vstd::prelude::*;
use vstd::utf8::encode_utf8;

use crate::gamepad::{ReportDescriptor, ReportDescriptorView};
use crate::text::{decimal, decimal_string, join, joined};

verus! {

/// One action on the file system that the owner of a gadget performs on
/// the gadget's behalf.
#[derive(Clone, Debug, PartialEq, Eq)]
pub enum FsOp {
    /// Make the directory `path`; its parent exists.
    CreateDir { path: String },
    /// Make the directory `path` and whatever is missing above it.
    CreateDirAll { path: String },
    /// Write `contents` to the file `path`, replacing what it held.
    WriteFile { path: String, contents: Vec<u8> },
    /// Make `link` a symbolic link to `target`.
    Symlink { target: String, link: String },
    /// Read the `major:minor` device number that the file `path` holds.
    ReadDeviceNumber { path: String },
    /// Name the first USB device controller listed in the directory `path`.
    FindController { path: String },
    /// Remove the file or symbolic link `path`.
    RemoveFile { path: String },
    /// Remove the empty directory `path`.
    RemoveDir { path: String },
}

/// An `FsOp` as plain mathematical values.
pub enum FsOpView {
    CreateDir { path: Seq<char> },
    CreateDirAll { path: Seq<char> },
    WriteFile { path: Seq<char>, contents: Seq<u8> },
    Symlink { target: Seq<char>, link: Seq<char> },
    ReadDeviceNumber { path: Seq<char> },
    FindController { path: Seq<char> },
    RemoveFile { path: Seq<char> },
    RemoveDir { path: Seq<char> },
}

impl View for FsOp {
    type V = FsOpView;

    open spec fn view(&self) -> FsOpView {
        match self {
            FsOp::CreateDir { path } => FsOpView::CreateDir { path: path@ },
            FsOp::CreateDirAll { path } => FsOpView::CreateDirAll { path: path@ },
            FsOp::WriteFile { path, contents } => FsOpView::WriteFile {
                path: path@,
                contents: contents@,
            },
            FsOp::Symlink { target, link } => FsOpView::Symlink {
                target: target@,
                link: link@,
            },
            FsOp::ReadDeviceNumber { path } => FsOpView::ReadDeviceNumber { path: path@ },
            FsOp::FindController { path } => FsOpView::FindController { path: path@ },
            FsOp::RemoveFile { path } => FsOpView::RemoveFile { path: path@ },
            FsOp::RemoveDir { path } => FsOpView::RemoveDir { path: path@ },
        }
    }
}

/// What came of an action.
#[derive(Clone, Debug, PartialEq, Eq)]
pub enum Outcome {
    /// The action was carried out.
    Done,
    /// The entry that the action was to work on does not exist.
    Missing,
    /// The action failed for any other reason.
    Failed,
    /// The device number that was read.
    DeviceNumber(String),
    /// The name of the controller that was found.
    Controller(Vec<u8>),
    /// The directory of controllers is empty.
    NoController,
}

/// An `Outcome` as plain mathematical values.
pub enum OutcomeView {
    Done,
    Missing,
    Failed,
    DeviceNumber(Seq<char>),
    Controller(Seq<u8>),
    NoController,
}

impl View for Outcome {
    type V = OutcomeView;

    open spec fn view(&self) -> OutcomeView {
        match self {
            Outcome::Done => OutcomeView::Done,
            Outcome::Missing => OutcomeView::Missing,
            Outcome::Failed => OutcomeView::Failed,
            Outcome::DeviceNumber(text) => OutcomeView::DeviceNumber(text@),
            Outcome::Controller(name) => OutcomeView::Controller(name@),
            Outcome::NoController => OutcomeView::NoController,
        }
    }
}

/// The actions of `ops`, each as plain values.
pub open spec fn views(ops: Seq<FsOp>) -> Seq<FsOpView> {
    ops.map_values(|op: FsOp| op@)
}

/// The directory that holds the gadget.
pub open spec fn gadget_root() -> Seq<char> {
    "/sys/kernel/config/usb_gadget/gadget_gamepads"@
}

/// The directory of the gadget's English strings.
pub open spec fn strings_dir() -> Seq<char> {
    joined(gadget_root(), "strings/0x409"@)
}

/// The directory of the gadget's one configuration.
pub open spec fn config_dir() -> Seq<char> {
    joined(gadget_root(), "configs/c.1"@)
}

/// The directory of the configuration's English strings.
pub open spec fn config_strings_dir() -> Seq<char> {
    joined(config_dir(), "strings/0x409"@)
}

/// The attribute that binds the gadget to a controller.
pub open spec fn udc_file() -> Seq<char> {
    joined(gadget_root(), "UDC"@)
}

/// The directory in which the kernel lists the controllers.
pub open spec fn udc_class_dir() -> Seq<char> {
    "/sys/class/udc"@
}

/// The name of the gadget's function number `index`.
pub open spec fn function_name(index: nat) -> Seq<char> {
    "hid.usb"@ + decimal(index)
}

/// The directory of the function number `index`.
pub open spec fn function_dir(index: nat) -> Seq<char> {
    joined(joined(gadget_root(), "functions"@), function_name(index))
}

/// The link that puts the function number `index` into the configuration.
pub open spec fn function_link(index: nat) -> Seq<char> {
    joined(config_dir(), function_name(index))
}

/// The action that writes `text` to the file `name` in `dir`.
pub open spec fn write_text(dir: Seq<char>, name: Seq<char>, text: Seq<char>) -> FsOpView {
    FsOpView::WriteFile { path: joined(dir, name), contents: encode_utf8(text) }
}

/// The actions that lay out the gadget itself, in order: its directory,
/// its identification, its strings, and its configuration with its power
/// budget and strings.
pub open spec fn base_plan(profile: ReportDescriptorView) -> Seq<FsOpView> {
    seq![
        FsOpView::CreateDir { path: gadget_root() },
        write_text(gadget_root(), "idVendor"@, profile.vendor_id),
        write_text(gadget_root(), "idProduct"@, profile.product_id),
        write_text(gadget_root(), "bcdDevice"@, "0x0100"@),
        write_text(gadget_root(), "bcdUSB"@, "0x0200"@),
        FsOpView::CreateDirAll { path: strings_dir() },
        write_text(strings_dir(), "serialnumber"@, "0"@),
        write_text(strings_dir(), "manufacturer"@, profile.manufacturer),
        write_text(strings_dir(), "product"@, profile.product),
        FsOpView::CreateDirAll { path: config_dir() },
        write_text(config_dir(), "MaxPower"@, "250"@),
        FsOpView::CreateDirAll { path: config_strings_dir() },
        write_text(config_strings_dir(), "configuration"@, "USB Gadget Gamepads"@),
    ]
}

/// The actions that make the function number `index`, in order: its
/// directory, its four attributes, its link into the configuration, and the
/// reading of the device number that the kernel gave it.
pub open spec fn function_plan(profile: ReportDescriptorView, index: nat) -> Seq<FsOpView> {
    seq![
        FsOpView::CreateDirAll { path: function_dir(index) },
        write_text(function_dir(index), "protocol"@, "1"@),
        write_text(function_dir(index), "subclass"@, "1"@),
        write_text(function_dir(index), "report_length"@, decimal(profile.report_size)),
        FsOpView::WriteFile {
            path: joined(function_dir(index), "report_desc"@),
            contents: profile.descriptor,
        },
        FsOpView::Symlink { target: function_dir(index), link: function_link(index) },
        FsOpView::ReadDeviceNumber { path: joined(function_dir(index), "dev"@) },
    ]
}

/// The actions that make the functions `0` to `count - 1`, one after another.
pub open spec fn functions_plan(profile: ReportDescriptorView, count: nat) -> Seq<FsOpView>
    decreases count,
{
    if count == 0 {
        Seq::empty()
    } else {
        functions_plan(profile, (count - 1) as nat) + function_plan(
            profile,
            (count - 1) as nat,
        )
    }
}

/// The action that binds the gadget to the controller `name`.
pub open spec fn activation(name: Seq<u8>) -> FsOpView {
    FsOpView::WriteFile { path: udc_file(), contents: name }
}

/// Every action of creating a gadget of `count` functions, in order: the
/// gadget itself, its functions, the search for a controller and, once
/// the controller is known, the binding to it.
pub open spec fn creation_plan(
    profile: ReportDescriptorView,
    count: nat,
    controller: Option<Seq<u8>>,
) -> Seq<FsOpView> {
    base_plan(profile) + functions_plan(profile, count) + seq![
        FsOpView::FindController { path: udc_class_dir() },
    ] + match controller {
        Some(name) => seq![activation(name)],
        None => Seq::empty(),
    }
}

/// The number of actions in the creation of a gadget of `count` functions.
pub open spec fn creation_len(count: nat) -> nat {
    15 + 7 * count
}

/// The two actions that remove the function number `index`: first its
/// link in the configuration, then its directory.
pub open spec fn function_removal(index: nat) -> Seq<FsOpView> {
    seq![
        FsOpView::RemoveFile { path: function_link(index) },
        FsOpView::RemoveDir { path: function_dir(index) },
    ]
}

/// The actions that remove the functions `0` to `count - 1`, in the order
/// in which they were made.
pub open spec fn functions_removal(count: nat) -> Seq<FsOpView>
    decreases count,
{
    if count == 0 {
        Seq::empty()
    } else {
        functions_removal((count - 1) as nat) + function_removal((count - 1) as nat)
    }
}

/// Every action of tearing down a gadget of `count` functions, in order:
/// unbind from the controller, remove each function, then the
/// configuration's strings, the configuration, the gadget's strings and
/// at last the gadget's directory.
pub open spec fn teardown_plan(count: nat) -> Seq<FsOpView> {
    seq![FsOpView::WriteFile { path: udc_file(), contents: Seq::empty() }] + functions_removal(
        count,
    ) + seq![
        FsOpView::RemoveDir { path: config_strings_dir() },
        FsOpView::RemoveDir { path: config_dir() },
        FsOpView::RemoveDir { path: strings_dir() },
        FsOpView::RemoveDir { path: gadget_root() },
    ]
}

/// The number of actions in the teardown of a gadget of `count` functions.
pub open spec fn teardown_len(count: nat) -> nat {
    5 + 2 * count
}

/// Pushing an action onto a list pushes its view onto the list's views.
pub proof fn lemma_views_push(ops: Seq<FsOp>, op: FsOp)
    ensures
        views(ops.push(op)) == views(ops).push(op@),
{
}

pub(crate) fn root_path() -> (path: String)
    ensures
        path@ == gadget_root(),
{
    String::from_str("/sys/kernel/config/usb_gadget/gadget_gamepads")
}

fn strings_path() -> (path: String)
    ensures
        path@ == strings_dir(),
{
    let root = root_path();
    join(root.as_str(), "strings/0x409")
}

fn config_path() -> (path: String)
    ensures
        path@ == config_dir(),
{
    let root = root_path();
    join(root.as_str(), "configs/c.1")
}

fn config_strings_path() -> (path: String)
    ensures
        path@ == config_strings_dir(),
{
    let config = config_path();
    join(config.as_str(), "strings/0x409")
}

fn udc_path() -> (path: String)
    ensures
        path@ == udc_file(),
{
    let root = root_path();
    join(root.as_str(), "UDC")
}

/// The name of the gadget's function number `index`.
pub fn function_name_string(index: usize) -> (name: String)
    ensures
        name@ == function_name(index as nat),
{
    let mut name = String::from_str("hid.usb");
    let digits = decimal_string(index);
    name.append(digits.as_str());
    name
}

fn function_path(index: usize) -> (path: String)
    ensures
        path@ == function_dir(index as nat),
{
    let root = root_path();
    let functions = join(root.as_str(), "functions");
    let name = function_name_string(index);
    join(functions.as_str(), name.as_str())
}

fn function_link_path(index: usize) -> (path: String)
    ensures
        path@ == function_link(index as nat),
{
    let config = config_path();
    let name = function_name_string(index);
    join(config.as_str(), name.as_str())
}

fn text_write(dir: &str, name: &str, text: &str) -> (op: FsOp)
    ensures
        op@ == write_text(dir@, name@, text@),
{
    FsOp::WriteFile { path: join(dir, name), contents: text.as_bytes_vec() }
}

fn push_op(ops: &mut Vec<FsOp>, op: FsOp)
    ensures
        views(final(ops)@) == views(old(ops)@).push(op@),
        final(ops)@ == old(ops)@.push(op),
{
    proof {
        lemma_views_push(ops@, op);
    }
    ops.push(op);
}

fn push_base_plan(ops: &mut Vec<FsOp>, profile: &ReportDescriptor)
    ensures
        views(final(ops)@) == views(old(ops)@) + base_plan(profile@),
{
    let root = root_path();
    let strings = strings_path();
    let config = config_path();
    let config_strings = config_strings_path();
    push_op(ops, FsOp::CreateDir { path: root_path() });
    push_op(ops, text_write(root.as_str(), "idVendor", profile.vendor_id.as_str()));
    push_op(ops, text_write(root.as_str(), "idProduct", profile.product_id.as_str()));
    push_op(ops, text_write(root.as_str(), "bcdDevice", "0x0100"));
    push_op(ops, text_write(root.as_str(), "bcdUSB", "0x0200"));
    push_op(ops, FsOp::CreateDirAll { path: strings_path() });
    push_op(ops, text_write(strings.as_str(), "serialnumber", "0"));
    push_op(ops, text_write(strings.as_str(), "manufacturer", profile.manufacturer.as_str()));
    push_op(ops, text_write(strings.as_str(), "product", profile.product.as_str()));
    push_op(ops, FsOp::CreateDirAll { path: config_path() });
    push_op(ops, text_write(config.as_str(), "MaxPower", "250"));
    push_op(ops, FsOp::CreateDirAll { path: config_strings_path() });
    push_op(ops, text_write(config_strings.as_str(), "configuration", "USB Gadget Gamepads"));
    assert(views(ops@) =~= views(old(ops)@) + base_plan(profile@));
}

fn push_function_plan(ops: &mut Vec<FsOp>, profile: &ReportDescriptor, index: usize)
    ensures
        views(final(ops)@) == views(old(ops)@) + function_plan(profile@, index as nat),
{
    let dir = function_path(index);
    let length = decimal_string(profile.report_size);
    push_op(ops, FsOp::CreateDirAll { path: function_path(index) });
    push_op(ops, text_write(dir.as_str(), "protocol", "1"));
    push_op(ops, text_write(dir.as_str(), "subclass", "1"));
    push_op(ops, text_write(dir.as_str(), "report_length", length.as_str()));
    push_op(
        ops,
        FsOp::WriteFile {
            path: join(dir.as_str(), "report_desc"),
            contents: profile.descriptor.clone(),
        },
    );
    push_op(
        ops,
        FsOp::Symlink { target: function_path(index), link: function_link_path(index) },
    );
    push_op(ops, FsOp::ReadDeviceNumber { path: join(dir.as_str(), "dev") });
}

/// The actions of creating a gadget of `count` functions for `profile`, up
/// to and including the search for a controller.
pub fn creation_actions(profile: &ReportDescriptor, count: usize) -> (ops: Vec<FsOp>)
    ensures
        views(ops@) == creation_plan(profile@, count as nat, None),
{
    let mut ops: Vec<FsOp> = Vec::new();
    push_base_plan(&mut ops, profile);
    let mut index: usize = 0;
    while index < count
        invariant
            index <= count,
            views(ops@) == base_plan(profile@) + functions_plan(profile@, index as nat),
        decreases count - index,
    {
        push_function_plan(&mut ops, profile, index);
        index = index + 1;
    }
    push_op(&mut ops, FsOp::FindController { path: String::from_str("/sys/class/udc") });
    ops
}

/// The action that binds the gadget to the controller `name`.
pub fn activation_action(name: Vec<u8>) -> (op: FsOp)
    ensures
        op@ == activation(name@),
{
    FsOp::WriteFile { path: udc_path(), contents: name }
}

/// The actions of tearing down a gadget of `count` functions.
pub fn teardown_actions(count: usize) -> (ops: Vec<FsOp>)
    ensures
        views(ops@) == teardown_plan(count as nat),
{
    let mut ops: Vec<FsOp> = Vec::new();
    push_op(&mut ops, FsOp::WriteFile { path: udc_path(), contents: Vec::new() });
    let ghost head = views(ops@);
    let mut index: usize = 0;
    while index < count
        invariant
            index <= count,
            views(ops@) == head + functions_removal(index as nat),
        decreases count - index,
    {
        push_op(&mut ops, FsOp::RemoveFile { path: function_link_path(index) });
        push_op(&mut ops, FsOp::RemoveDir { path: function_path(index) });
        index = index + 1;
    }
    push_op(&mut ops, FsOp::RemoveDir { path: config_strings_path() });
    push_op(&mut ops, FsOp::RemoveDir { path: config_path() });
    push_op(&mut ops, FsOp::RemoveDir { path: strings_path() });
    push_op(&mut ops, FsOp::RemoveDir { path: root_path() });
    ops
}

/// The number of device numbers read by the first `k` actions of `ops`.
pub open spec fn reads_before(ops: Seq<FsOpView>, k: nat) -> nat
    decreases k,
{
    if k == 0 {
        0
    } else {
        reads_before(ops, (k - 1) as nat) + if ops[k - 1] is ReadDeviceNumber {
            1nat
        } else {
            0nat
        }
    }
}

/// The actions for `count` functions are seven for each function, and the
/// action number `j` of function `i` stands at `7 * i + j`.
pub proof fn lemma_functions_plan_at(profile: ReportDescriptorView, count: nat, i: nat, j: int)
    requires
        i < count,
        0 <= j < 7,
    ensures
        functions_plan(profile, count).len() == 7 * count,
        functions_plan(profile, count)[7 * i + j] == function_plan(profile, i)[j],
    decreases count,
{
    lemma_functions_plan_len(profile, (count - 1) as nat);
    if i < count - 1 {
        lemma_functions_plan_at(profile, (count - 1) as nat, i, j);
    }
}

/// The actions for `count` functions are seven for each function.
pub proof fn lemma_functions_plan_len(profile: ReportDescriptorView, count: nat)
    ensures
        functions_plan(profile, count).len() == 7 * count,
    decreases count,
{
    if count > 0 {
        lemma_functions_plan_len(profile, (count - 1) as nat);
    }
}

/// No action that makes a function searches for a controller.
pub proof fn lemma_functions_plan_no_search(profile: ReportDescriptorView, count: nat)
    ensures
        forall|k: int|
            0 <= k < functions_plan(profile, count).len() ==> !(#[trigger] functions_plan(
                profile,
                count,
            )[k] is FindController),
    decreases count,
{
    if count > 0 {
        let head = functions_plan(profile, (count - 1) as nat);
        let tail = function_plan(profile, (count - 1) as nat);
        lemma_functions_plan_no_search(profile, (count - 1) as nat);
        assert forall|k: int| 0 <= k < functions_plan(profile, count).len() implies !(
        #[trigger] functions_plan(profile, count)[k] is FindController) by {
            if k >= head.len() {
                assert(functions_plan(profile, count)[k] == tail[k - head.len()]);
            } else {
                assert(functions_plan(profile, count)[k] == head[k]);
            }
        }
    }
}

/// The shape of the creation plan: thirteen actions for the gadget, seven
/// for each function, then the one search for a controller and, once the
/// controller is known, the binding to it.
pub proof fn lemma_creation_plan_shape(
    profile: ReportDescriptorView,
    count: nat,
    controller: Option<Seq<u8>>,
)
    ensures
        creation_plan(profile, count, controller).len() == 14 + 7 * count + if controller
            is Some {
            1nat
        } else {
            0nat
        },
        creation_plan(profile, count, controller)[13 + 7 * (count as int)] == (FsOpView::FindController {
            path: udc_class_dir(),
        }),
        forall|k: int|
            0 <= k < 13 + 7 * count ==> !(#[trigger] creation_plan(profile, count, controller)[k]
                is FindController),
        forall|k: int|
            0 <= k < 13 + 7 * count ==> creation_plan(profile, count, controller)[k]
                == #[trigger] creation_plan(profile, count, None)[k],
        controller matches Some(name) ==> creation_plan(profile, count, controller)[14 + 7 * (
        count as int)] == activation(name),
{
    let base = base_plan(profile);
    let functions = functions_plan(profile, count);
    let plan = creation_plan(profile, count, controller);
    lemma_functions_plan_len(profile, count);
    lemma_functions_plan_no_search(profile, count);
    assert forall|k: int| 0 <= k < 13 + 7 * count implies !(#[trigger] plan[k]
        is FindController) && plan[k] == creation_plan(profile, count, None)[k] by {
        if k < 13 {
            assert(plan[k] == base[k]);
        } else {
            assert(plan[k] == functions[k - 13]);
        }
    }
}

/// Two plans that agree on their first `k` actions read as many device
/// numbers there.
pub proof fn lemma_reads_agree(first: Seq<FsOpView>, second: Seq<FsOpView>, k: nat)
    requires
        forall|i: int| 0 <= i < k ==> first[i] == second[i],
    ensures
        reads_before(first, k) == reads_before(second, k),
    decreases k,
{
    if k > 0 {
        lemma_reads_agree(first, second, (k - 1) as nat);
    }
}

/// The reads of a plan that is made of two parts are those of the parts.
pub proof fn lemma_reads_concat(first: Seq<FsOpView>, second: Seq<FsOpView>, k: nat)
    requires
        k <= second.len(),
    ensures
        reads_before(first + second, first.len() + k) == reads_before(first, first.len())
            + reads_before(second, k),
    decreases k,
{
    if k == 0 {
        lemma_reads_agree(first + second, first, first.len());
    } else {
        lemma_reads_concat(first, second, (k - 1) as nat);
        assert((first + second)[first.len() + k - 1] == second[k - 1]);
    }
}

/// The more actions, the more reads.
pub proof fn lemma_reads_monotonic(ops: Seq<FsOpView>, k: nat, m: nat)
    requires
        k <= m,
    ensures
        reads_before(ops, k) <= reads_before(ops, m),
    decreases m,
{
    if k < m {
        lemma_reads_monotonic(ops, k, (m - 1) as nat);
    }
}

/// Making `count` functions reads `count` device numbers.
pub proof fn lemma_functions_plan_reads(profile: ReportDescriptorView, count: nat)
    ensures
        reads_before(functions_plan(profile, count), 7 * count) == count,
    decreases count,
{
    if count > 0 {
        let head = functions_plan(profile, (count - 1) as nat);
        let tail = function_plan(profile, (count - 1) as nat);
        lemma_functions_plan_reads(profile, (count - 1) as nat);
        lemma_functions_plan_len(profile, (count - 1) as nat);
        lemma_reads_concat(head, tail, 7);
        assert(reads_before(tail, 7) == 1) by {
            reveal_with_fuel(reads_before, 8);
        }
    }
}

/// From the search for a controller on, the creation plan has read one
/// device number for each function; before that, never more.
pub proof fn lemma_creation_plan_reads(
    profile: ReportDescriptorView,
    count: nat,
    controller: Option<Seq<u8>>,
    k: nat,
)
    requires
        k <= creation_plan(profile, count, controller).len(),
    ensures
        reads_before(creation_plan(profile, count, controller), k) <= count,
        k >= 13 + 7 * count ==> reads_before(creation_plan(profile, count, controller), k)
            == count,
{
    let base = base_plan(profile);
    let functions = functions_plan(profile, count);
    let plan = creation_plan(profile, count, controller);
    let total = (13 + 7 * count) as nat;
    lemma_creation_plan_shape(profile, count, controller);
    lemma_functions_plan_len(profile, count);
    lemma_functions_plan_reads(profile, count);
    lemma_reads_concat(base, functions, 7 * count);
    assert(reads_before(base, 13) == 0) by {
        reveal_with_fuel(reads_before, 14);
    }
    assert forall|i: int| 0 <= i < total implies plan[i] == (base + functions)[i] by {}
    lemma_reads_agree(plan, base + functions, total);
    assert(reads_before(plan, total) == count);
    assert(reads_before(plan, total + 1) == count);
    if controller is Some {
        assert(reads_before(plan, total + 2) == count);
    }
    if k <= total {
        lemma_reads_monotonic(plan, k, total);
    }
}

/// The removals for `count` functions are two for each function, and the
/// removal number `j` of function `i` stands at `2 * i + j`.
pub proof fn lemma_functions_removal_at(count: nat, i: nat, j: int)
    requires
        i < count,
        0 <= j < 2,
    ensures
        functions_removal(count).len() == 2 * count,
        functions_removal(count)[2 * i + j] == function_removal(i)[j],
    decreases count,
{
    lemma_functions_removal_len((count - 1) as nat);
    if i < count - 1 {
        lemma_functions_removal_at((count - 1) as nat, i, j);
    }
}

/// The removals for `count` functions are two for each function.
pub proof fn lemma_functions_removal_len(count: nat)
    ensures
        functions_removal(count).len() == 2 * count,
    decreases count,
{
    if count > 0 {
        lemma_functions_removal_len((count - 1) as nat);
    }
}

/// The teardown plan has one action to unbind, two for each function and
/// four for the directories of the gadget.
pub proof fn lemma_teardown_plan_len(count: nat)
    ensures
        teardown_plan(count).len() == teardown_len(count),
{
    lemma_functions_removal_len(count);
}

} // verus!
