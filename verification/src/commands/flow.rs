//! The interactive subcommands as a conversation between the library and the
//! program: the library names the next thing to do (ask, list, run an
//! operation, report), the program does it and hands the outcome to the
//! value that came with the action, which names the step after.
use super::create::{
    default_device_name, device_type_choices, known_device_types, underscored, DEVICE_TYPE_PROMPT,
    NAME_PROMPT, RUNTIME_PROMPT,
};
use super::{device_choices, device_choices_spec, device_done_spec, runtime_choices, runtime_choices_spec};
use crate::domain::device::Device;
use crate::domain::runtime::{device_type_views, DeviceType, DeviceTypeView, Runtime};
use crate::error::{Error, ErrorView};
use crate::platform::{kind_name, PlatformKind, PlatformRegistry};
use crate::text::string_views;
use crate::ui::selection::{
    platform_names, resolve_platform, resolve_platform_spec, PlatformChoice, PLATFORM_PROMPT,
};
use vstd::prelude::*;

verus! {

/// A subcommand that acts on one chosen device.
#[derive(Debug, Clone, Copy, PartialEq, Eq, Structural)]
pub enum DeviceTask {
    Start,
    Delete,
    Erase,
}

/// An interactive subcommand.
#[derive(Debug, Clone, Copy, PartialEq, Eq, Structural)]
pub enum Task {
    /// Choose a device and act on it.
    OnDevice(DeviceTask),
    /// Choose a runtime and a device type, name the device, create it.
    Create,
    /// Choose a runtime that is not installed and install it.
    Install,
}

/// An operation of a platform that changes something.
pub enum Operation {
    Start { platform: PlatformKind, device_id: String },
    Delete { platform: PlatformKind, device_id: String },
    Erase { platform: PlatformKind, device_id: String },
    Create { platform: PlatformKind, name: String, device_type: String, runtime: String },
    Install { platform: PlatformKind, runtime: String },
}

/// A choice put to the user, with what it is a choice among.
pub enum Question {
    /// Which platform the subcommand is for.
    Platform { task: Task, options: Vec<PlatformKind> },
    /// Which device to act on.
    Device { task: DeviceTask, platform: PlatformKind, devices: Vec<Device> },
    /// Which runtime the new device runs.
    Runtime { platform: PlatformKind, runtimes: Vec<Runtime> },
    /// Which device type the new device is, for the chosen runtime.
    DeviceType { platform: PlatformKind, runtime: Runtime, types: Vec<DeviceType> },
    /// Which runtime to install.
    AvailableRuntime { platform: PlatformKind, runtimes: Vec<Runtime> },
}

/// Waiting for a platform's devices.
pub struct DevicesWanted {
    pub task: DeviceTask,
    pub platform: PlatformKind,
}

/// Waiting for a platform's installed runtimes.
pub struct RuntimesWanted {
    pub platform: PlatformKind,
}

/// Waiting for a platform's device types, for the chosen runtime.
pub struct DeviceTypesWanted {
    pub platform: PlatformKind,
    pub runtime: Runtime,
}

/// Waiting for the runtimes that a platform can install.
pub struct AvailableRuntimesWanted {
    pub platform: PlatformKind,
}

/// Waiting for the name of the new device.
pub struct Naming {
    pub platform: PlatformKind,
    pub runtime: String,
    pub device_type: String,
}

/// Waiting for an operation's outcome; `message` is the report of success.
pub struct Completion {
    pub message: String,
}

/// What the program is to do next.
pub enum Action {
    /// Ask the user to pick one of `items` under `prompt`; the answer (none
    /// when the prompt is dismissed) goes to `then.answered`.
    Choose { prompt: &'static str, items: Vec<String>, then: Question },
    /// Ask the user for a line of text, offering `default`; the text goes to
    /// `then.typed`.
    Ask { prompt: &'static str, default: String, then: Naming },
    /// List the platform's devices; the outcome goes to `then.listed`.
    ListDevices { platform: PlatformKind, then: DevicesWanted },
    /// List the platform's runtimes; the outcome goes to `then.listed`.
    ListRuntimes { platform: PlatformKind, then: RuntimesWanted },
    /// List the platform's device types; the outcome goes to `then.listed`.
    ListDeviceTypes { platform: PlatformKind, then: DeviceTypesWanted },
    /// List the runtimes the platform can install; the outcome goes to
    /// `then.listed`.
    ListAvailableRuntimes { platform: PlatformKind, then: AvailableRuntimesWanted },
    /// Run the operation; the outcome goes to `then.performed`.
    Perform { operation: Operation, then: Completion },
    /// Print the message; the subcommand succeeded.
    Finish { message: String },
    /// The subcommand failed with this error.
    Fail { error: Error },
}

// ---------------------------------------------------------------------------
// What each step leads to
// ---------------------------------------------------------------------------

/// The prompt under which a device task's device is chosen.
pub open spec fn device_prompt(t: DeviceTask) -> Seq<char> {
    match t {
        DeviceTask::Start => super::start::PROMPT@,
        DeviceTask::Delete => super::delete::PROMPT@,
        DeviceTask::Erase => super::erase::PROMPT@,
    }
}

/// The word with which a device task reports success.
pub open spec fn device_verb(t: DeviceTask) -> Seq<char> {
    match t {
        DeviceTask::Start => "started"@,
        DeviceTask::Delete => "deleted"@,
        DeviceTask::Erase => "erased"@,
    }
}

/// Whether `op` is the device task's operation on the device `id` of the platform.
pub open spec fn is_device_operation(t: DeviceTask, platform: PlatformKind, id: Seq<char>, op: Operation) -> bool {
    match t {
        DeviceTask::Start => op matches Operation::Start { platform: p, device_id } && p == platform
            && device_id@ == id,
        DeviceTask::Delete => op matches Operation::Delete { platform: p, device_id } && p
            == platform && device_id@ == id,
        DeviceTask::Erase => op matches Operation::Erase { platform: p, device_id } && p == platform
            && device_id@ == id,
    }
}

/// Whether `a` fails with the error `e`.
pub open spec fn fails_with(a: Action, e: ErrorView) -> bool {
    a matches Action::Fail { error } && error@ == e
}

/// The step once the platform is settled: list what the task chooses among.
pub open spec fn after_platform(task: Task, platform: PlatformKind, a: Action) -> bool {
    match task {
        Task::OnDevice(t) => a == (Action::ListDevices {
            platform,
            then: DevicesWanted { task: t, platform },
        }),
        Task::Create => a == (Action::ListRuntimes { platform, then: RuntimesWanted { platform } }),
        Task::Install => a == (Action::ListAvailableRuntimes {
            platform,
            then: AvailableRuntimesWanted { platform },
        }),
    }
}

/// The step once the runtime of a new device is chosen: choose among the
/// device types that it lists, or list the platform's when it lists none.
pub open spec fn after_runtime(platform: PlatformKind, runtime: Runtime, a: Action) -> bool {
    if runtime@.supported_device_types.len() == 0 {
        a matches Action::ListDeviceTypes { platform: p, then } && p == platform && then.platform
            == platform && then.runtime@ == runtime@
    } else {
        asks_device_type(platform, runtime@.supported_device_types, runtime, a)
    }
}

/// Whether `a` puts the choice of a device type among `types` for `runtime`.
pub open spec fn asks_device_type(
    platform: PlatformKind,
    types: Seq<DeviceTypeView>,
    runtime: Runtime,
    a: Action,
) -> bool {
    a matches Action::Choose { prompt, items, then: Question::DeviceType { platform: p, runtime: r, types: ts } }
        && prompt@ == DEVICE_TYPE_PROMPT@ && p == platform && r@ == runtime@ && device_type_views(
        ts@,
    ) == types && string_views(items@) == types.map_values(|t: DeviceTypeView| underscored(t.name))
}

/// The number of answers a question offers.
pub open spec fn question_size(q: Question) -> nat {
    match q {
        Question::Platform { options, .. } => options@.len(),
        Question::Device { devices, .. } => devices@.len(),
        Question::Runtime { runtimes, .. } => runtimes@.len(),
        Question::DeviceType { types, .. } => types@.len(),
        Question::AvailableRuntime { runtimes, .. } => runtimes@.len(),
    }
}

/// What answer `i` to question `q` leads to.
pub open spec fn after_answer(q: Question, i: int, a: Action) -> bool {
    match q {
        Question::Platform { task, options } => after_platform(task, options@[i], a),
        Question::Device { task, platform, devices } => a matches Action::Perform { operation, then }
            && is_device_operation(task, platform, devices@[i].id@, operation) && then.message@
            == device_done_spec(platform, devices@[i].name@, device_verb(task)),
        Question::Runtime { platform, runtimes } => after_runtime(platform, runtimes@[i], a),
        Question::DeviceType { platform, runtime, types } => a matches Action::Ask { prompt, default, then }
            && prompt@ == NAME_PROMPT@ && default@ == underscored(types@[i]@.name) + seq![' ']
            + runtime@.name && then.platform == platform && then.runtime@ == runtime@.identifier
            && then.device_type@ == types@[i]@.identifier,
        Question::AvailableRuntime { platform, runtimes } => a matches Action::Perform { operation: Operation::Install { platform: p, runtime }, then }
            && p == platform && runtime@ == runtimes@[i]@.identifier && then.message@ == kind_name(
            platform,
        ) + " runtime '"@ + runtimes@[i]@.name + "' installed successfully."@,
    }
}

// ---------------------------------------------------------------------------
// Laws of the steps
// ---------------------------------------------------------------------------

/// Law: once the platform is settled, the task goes on, on that platform, with
/// the listing it chooses from, and a device task keeps its own kind: a
/// delete stays a delete and an erase an erase.
pub proof fn law_settled_platform_keeps_task(task: Task, p: PlatformKind, a: Action)
    requires
        after_platform(task, p, a),
    ensures
        task matches Task::OnDevice(t) ==> a matches Action::ListDevices { platform, then }
            && platform == p && then.platform == p && then.task == t,
        task == Task::Create ==> (a matches Action::ListRuntimes { platform, then } && platform
            == p && then.platform == p),
        task == Task::Install ==> (a matches Action::ListAvailableRuntimes { platform, then }
            && platform == p && then.platform == p),
{
}

/// Law: each device task asks and reports in its own words: the three
/// prompts differ, as do the three verbs, and each names its task.
pub proof fn law_device_task_words(t: DeviceTask, u: DeviceTask)
    ensures
        t != u ==> device_prompt(t) != device_prompt(u) && device_verb(t) != device_verb(u),
        device_prompt(t) == match t {
            DeviceTask::Start => "Select the device to start"@,
            DeviceTask::Delete => "Select the device to delete"@,
            DeviceTask::Erase => "Select the device to erase content and settings from"@,
        },
{
    reveal_strlit("Select the device to start");
    reveal_strlit("Select the device to delete");
    reveal_strlit("Select the device to erase content and settings from");
    reveal_strlit("started");
    reveal_strlit("deleted");
    reveal_strlit("erased");
    assert("Select the device to start"@[21] != "Select the device to delete"@[21]);
    assert("Select the device to start"@.len() != "Select the device to erase content and settings from"@.len());
    assert("Select the device to delete"@.len() != "Select the device to erase content and settings from"@.len());
    assert("started"@[0] != "deleted"@[0]);
    assert("started"@.len() != "erased"@.len());
    assert("deleted"@.len() != "erased"@.len());
}

/// Law: answer `i` to the platform question settles the `i`-th platform
/// offered, whatever the task.
pub proof fn law_platform_answer_picks(task: Task, options: Vec<PlatformKind>, i: int, a: Action)
    requires
        0 <= i < options@.len(),
        after_answer(Question::Platform { task, options }, i, a),
    ensures
        match a {
            Action::ListDevices { platform, .. } => platform == options@[i],
            Action::ListRuntimes { platform, .. } => platform == options@[i],
            Action::ListAvailableRuntimes { platform, .. } => platform == options@[i],
            _ => false,
        },
{
}

/// Law: answer `i` to the device question runs the task's own operation on
/// the `i`-th device, identified by its identifier (the UDID on iOS), on the
/// question's platform, and reports that device's name.
pub proof fn law_device_answer_picks(
    task: DeviceTask,
    platform: PlatformKind,
    devices: Vec<Device>,
    i: int,
    a: Action,
)
    requires
        0 <= i < devices@.len(),
        after_answer(Question::Device { task, platform, devices }, i, a),
    ensures
        a matches Action::Perform { operation, then } && then.message@ == kind_name(platform)
            + " device '"@ + devices@[i].name@ + "' "@ + device_verb(task) + " successfully."@
            && match operation {
            Operation::Start { platform: p, device_id } => task == DeviceTask::Start && p
                == platform && device_id@ == devices@[i].id@,
            Operation::Delete { platform: p, device_id } => task == DeviceTask::Delete && p
                == platform && device_id@ == devices@[i].id@,
            Operation::Erase { platform: p, device_id } => task == DeviceTask::Erase && p
                == platform && device_id@ == devices@[i].id@,
            _ => false,
        },
{
}

/// Law: answer `i` to the runtime question goes on with the `i`-th runtime:
/// the device types it lists are offered, or, where it lists none, the
/// platform's device types are listed for it.
pub proof fn law_runtime_answer_picks(platform: PlatformKind, runtimes: Vec<Runtime>, i: int, a: Action)
    requires
        0 <= i < runtimes@.len(),
        after_answer(Question::Runtime { platform, runtimes }, i, a),
    ensures
        match a {
            Action::ListDeviceTypes { platform: p, then } => p == platform && then.platform
                == platform && then.runtime@ == runtimes@[i]@
                && runtimes@[i]@.supported_device_types.len() == 0,
            Action::Choose { prompt, items, then: Question::DeviceType { platform: p, runtime, types } } => p
                == platform && runtime@ == runtimes@[i]@ && device_type_views(types@)
                == runtimes@[i]@.supported_device_types && items@.len() == types@.len()
                && types@.len() > 0 && prompt@ == DEVICE_TYPE_PROMPT@,
            _ => false,
        },
{
    if runtimes@[i]@.supported_device_types.len() > 0 {
        if let Action::Choose { items, then: Question::DeviceType { types, .. }, .. } = a {
            assert(crate::text::string_views(items@).len() == items@.len());
            assert(device_type_views(types@).len() == types@.len());
        }
    }
}

/// Law: answer `i` to the device type question asks for the name, to create
/// a device of the `i`-th type on the chosen runtime.
pub proof fn law_device_type_answer_picks(
    platform: PlatformKind,
    runtime: Runtime,
    types: Vec<DeviceType>,
    i: int,
    a: Action,
)
    requires
        0 <= i < types@.len(),
        after_answer(Question::DeviceType { platform, runtime, types }, i, a),
    ensures
        a matches Action::Ask { then, .. } && then.platform == platform && then.device_type@
            == types@[i].identifier@ && then.runtime@ == runtime.identifier@,
{
}

/// Law: answer `i` to the installable runtime question installs the `i`-th
/// runtime, by its identifier, and reports it by its name.
pub proof fn law_available_answer_picks(
    platform: PlatformKind,
    runtimes: Vec<Runtime>,
    i: int,
    a: Action,
)
    requires
        0 <= i < runtimes@.len(),
        after_answer(Question::AvailableRuntime { platform, runtimes }, i, a),
    ensures
        a matches Action::Perform { operation: Operation::Install { platform: p, runtime }, then }
            && p == platform && runtime@ == runtimes@[i].identifier@ && then.message@ == kind_name(
            platform,
        ) + " runtime '"@ + runtimes@[i].name@ + "' installed successfully."@,
{
}

// ---------------------------------------------------------------------------
// The steps
// ---------------------------------------------------------------------------

/// The first step of a task: settle the platform from the flags, or ask.
pub fn begin(task: Task, registry: &PlatformRegistry, ios: bool, android: bool) -> (a: Action)
    ensures
        match resolve_platform_spec(registry@, ios, android) {
            Err(e) => fails_with(a, e),
            Ok(Ok(p)) => after_platform(task, p, a),
            Ok(Err(options)) => a matches Action::Choose { prompt, items, then: Question::Platform { task: t, options: o } }
                && prompt@ == PLATFORM_PROMPT@ && t == task && o@ == options && string_views(items@)
                == options.map_values(|k: PlatformKind| kind_name(k)),
        },
{
    match resolve_platform(registry, ios, android) {
        Err(error) => Action::Fail { error },
        Ok(PlatformChoice::Chosen(p)) => platform_settled(task, p),
        Ok(PlatformChoice::Ask(options)) => {
            let items = platform_names(&options);
            Action::Choose {
                prompt: PLATFORM_PROMPT,
                items,
                then: Question::Platform { task, options },
            }
        },
    }
}

fn platform_settled(task: Task, platform: PlatformKind) -> (a: Action)
    ensures
        after_platform(task, platform, a),
{
    match task {
        Task::OnDevice(t) => Action::ListDevices {
            platform,
            then: DevicesWanted { task: t, platform },
        },
        Task::Create => Action::ListRuntimes { platform, then: RuntimesWanted { platform } },
        Task::Install => Action::ListAvailableRuntimes {
            platform,
            then: AvailableRuntimesWanted { platform },
        },
    }
}

fn runtime_settled(platform: PlatformKind, runtime: Runtime) -> (a: Action)
    ensures
        after_runtime(platform, runtime, a),
{
    match known_device_types(&runtime) {
        None => Action::ListDeviceTypes { platform, then: DeviceTypesWanted { platform, runtime } },
        Some(types) => ask_device_type(platform, runtime, types),
    }
}

fn ask_device_type(platform: PlatformKind, runtime: Runtime, types: Vec<DeviceType>) -> (a: Action)
    requires
        types@.len() > 0,
    ensures
        asks_device_type(platform, device_type_views(types@), runtime, a),
{
    match device_type_choices(platform, &types) {
        Ok(items) => Action::Choose {
            prompt: DEVICE_TYPE_PROMPT,
            items,
            then: Question::DeviceType { platform, runtime, types },
        },
        Err(error) => {
            assert(false);
            Action::Fail { error }
        },
    }
}

impl Question {
    /// The number of answers the question offers.
    pub fn count(&self) -> (r: usize)
        ensures
            r == question_size(*self),
    {
        match self {
            Question::Platform { options, .. } => options.len(),
            Question::Device { devices, .. } => devices.len(),
            Question::Runtime { runtimes, .. } => runtimes.len(),
            Question::DeviceType { types, .. } => types.len(),
            Question::AvailableRuntime { runtimes, .. } => runtimes.len(),
        }
    }

    /// The step after the user's answer: a failed prompt fails the task, a
    /// dismissed one cancels it, and a pick leads on.
    pub fn answered(self, answer: Result<Option<usize>, Error>) -> (a: Action)
        requires
            answer matches Ok(Some(i)) ==> i < question_size(self),
        ensures
            match answer {
                Err(e) => fails_with(a, e@),
                Ok(None) => fails_with(a, ErrorView::UserCancelled),
                Ok(Some(i)) => after_answer(self, i as int, a),
            },
    {
        let i = match answer {
            Err(error) => return Action::Fail { error },
            Ok(None) => return Action::Fail { error: Error::UserCancelled },
            Ok(Some(i)) => i,
        };
        match self {
            Question::Platform { task, options } => platform_settled(task, options[i]),
            Question::Device { task, platform, devices } => {
                let device = &devices[i];
                let id = device.id.clone();
                let (operation, message) = match task {
                    DeviceTask::Start => (
                        Operation::Start { platform, device_id: id },
                        super::start::done_message(platform, device.name.as_str()),
                    ),
                    DeviceTask::Delete => (
                        Operation::Delete { platform, device_id: id },
                        super::delete::done_message(platform, device.name.as_str()),
                    ),
                    DeviceTask::Erase => (
                        Operation::Erase { platform, device_id: id },
                        super::erase::done_message(platform, device.name.as_str()),
                    ),
                };
                Action::Perform { operation, then: Completion { message } }
            },
            Question::Runtime { platform, runtimes } => {
                let mut runtimes = runtimes;
                let runtime = runtimes.remove(i);
                runtime_settled(platform, runtime)
            },
            Question::DeviceType { platform, runtime, types } => {
                let device_type = &types[i];
                let default = default_device_name(device_type, &runtime);
                Action::Ask {
                    prompt: NAME_PROMPT,
                    default,
                    then: Naming {
                        platform,
                        runtime: runtime.identifier.clone(),
                        device_type: device_type.identifier.clone(),
                    },
                }
            },
            Question::AvailableRuntime { platform, runtimes } => {
                let runtime = &runtimes[i];
                let message = super::install::done_message(platform, runtime);
                Action::Perform {
                    operation: Operation::Install {
                        platform,
                        runtime: runtime.identifier.clone(),
                    },
                    then: Completion { message },
                }
            },
        }
    }
}

impl DevicesWanted {
    /// The step after the devices are listed: a failed listing fails the
    /// task, an empty one has nothing to act on, else the device is chosen.
    pub fn listed(self, devices: Result<Vec<Device>, Error>) -> (a: Action)
        ensures
            match devices {
                Err(e) => fails_with(a, e@),
                Ok(v) => match device_choices_spec(self.platform, v@) {
                    Err(e) => fails_with(a, e),
                    Ok(names) => a matches Action::Choose { prompt, items, then: Question::Device { task, platform, devices: d } }
                        && prompt@ == device_prompt(self.task) && string_views(items@) == names
                        && task == self.task && platform == self.platform && d@ == v@,
                },
            },
    {
        let devices = match devices {
            Err(error) => return Action::Fail { error },
            Ok(v) => v,
        };
        match device_choices(self.platform, &devices) {
            Err(error) => Action::Fail { error },
            Ok(items) => {
                let prompt = match self.task {
                    DeviceTask::Start => super::start::PROMPT,
                    DeviceTask::Delete => super::delete::PROMPT,
                    DeviceTask::Erase => super::erase::PROMPT,
                };
                Action::Choose {
                    prompt,
                    items,
                    then: Question::Device { task: self.task, platform: self.platform, devices },
                }
            },
        }
    }
}

impl RuntimesWanted {
    /// The step after the runtimes are listed: a failed listing fails the
    /// task, an empty one leaves nothing to create with, else the runtime is
    /// chosen.
    pub fn listed(self, runtimes: Result<Vec<Runtime>, Error>) -> (a: Action)
        ensures
            match runtimes {
                Err(e) => fails_with(a, e@),
                Ok(v) => match runtime_choices_spec(self.platform, v@) {
                    Err(e) => fails_with(a, e),
                    Ok(names) => a matches Action::Choose { prompt, items, then: Question::Runtime { platform, runtimes: r } }
                        && prompt@ == RUNTIME_PROMPT@ && string_views(items@) == names && platform
                        == self.platform && r@ == v@,
                },
            },
    {
        let runtimes = match runtimes {
            Err(error) => return Action::Fail { error },
            Ok(v) => v,
        };
        match runtime_choices(self.platform, &runtimes) {
            Err(error) => Action::Fail { error },
            Ok(items) => Action::Choose {
                prompt: RUNTIME_PROMPT,
                items,
                then: Question::Runtime { platform: self.platform, runtimes },
            },
        }
    }
}

impl DeviceTypesWanted {
    /// The step after the platform's device types are listed: a failed
    /// listing fails the task, an empty one leaves nothing to choose, else
    /// the device type is chosen.
    pub fn listed(self, types: Result<Vec<DeviceType>, Error>) -> (a: Action)
        ensures
            match types {
                Err(e) => fails_with(a, e@),
                Ok(v) => if v@.len() == 0 {
                    fails_with(
                        a,
                        ErrorView::NoDevicesAvailable {
                            platform: kind_name(self.platform) + " device type"@,
                        },
                    )
                } else {
                    asks_device_type(self.platform, device_type_views(v@), self.runtime, a)
                },
            },
    {
        let types = match types {
            Err(error) => return Action::Fail { error },
            Ok(v) => v,
        };
        if types.len() == 0 {
            let mut p = self.platform.to_string();
            p.append(" device type");
            return Action::Fail { error: Error::NoDevicesAvailable { platform: p } };
        }
        ask_device_type(self.platform, self.runtime, types)
    }
}

impl AvailableRuntimesWanted {
    /// The step after the installable runtimes are listed: a failed listing
    /// fails the task, an empty one leaves nothing to install, else the
    /// runtime is chosen.
    pub fn listed(self, runtimes: Result<Vec<Runtime>, Error>) -> (a: Action)
        ensures
            match runtimes {
                Err(e) => fails_with(a, e@),
                Ok(v) => match runtime_choices_spec(self.platform, v@) {
                    Err(e) => fails_with(a, e),
                    Ok(names) => a matches Action::Choose { prompt, items, then: Question::AvailableRuntime { platform, runtimes: r } }
                        && prompt@ == super::install::PROMPT@ && string_views(items@) == names
                        && platform == self.platform && r@ == v@,
                },
            },
    {
        let runtimes = match runtimes {
            Err(error) => return Action::Fail { error },
            Ok(v) => v,
        };
        match runtime_choices(self.platform, &runtimes) {
            Err(error) => Action::Fail { error },
            Ok(items) => Action::Choose {
                prompt: super::install::PROMPT,
                items,
                then: Question::AvailableRuntime { platform: self.platform, runtimes },
            },
        }
    }
}

impl Naming {
    /// The step after the name is entered: create the device of the chosen
    /// type and runtime under that name.
    pub fn typed(self, name: Result<String, Error>) -> (a: Action)
        ensures
            match name {
                Err(e) => fails_with(a, e@),
                Ok(n) => a matches Action::Perform { operation: Operation::Create { platform, name: m, device_type, runtime }, then }
                    && platform == self.platform && m@ == n@ && device_type@ == self.device_type@
                    && runtime@ == self.runtime@ && then.message@ == device_done_spec(
                    self.platform,
                    n@,
                    "created"@,
                ),
            },
    {
        let name = match name {
            Err(error) => return Action::Fail { error },
            Ok(n) => n,
        };
        let message = super::create::done_message(self.platform, name.as_str());
        Action::Perform {
            operation: Operation::Create {
                platform: self.platform,
                name,
                device_type: self.device_type,
                runtime: self.runtime,
            },
            then: Completion { message },
        }
    }
}

impl Completion {
    /// The step after the operation ran: report success, or fail with its error.
    pub fn performed(self, outcome: Result<(), Error>) -> (a: Action)
        ensures
            match outcome {
                Err(e) => fails_with(a, e@),
                Ok(()) => a matches Action::Finish { message } && message@ == self.message@,
            },
    {
        match outcome {
            Err(error) => Action::Fail { error },
            Ok(()) => Action::Finish { message: self.message },
        }
    }
}

} // verus!
