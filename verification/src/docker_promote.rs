//! Promotion of a container image: the image is pulled from the source
//! registry, tagged for the target, and pushed there.

use vstd::prelude::*;
use crate::errors::{ErrorView, ManagerError, ManagerResult, unit_view};
use crate::process::{
    Action, ActionView, check_command, command, command_failure, CommandLine, CommandLineView,
    Event, EventView,
};

verus! {

/// The registry that images are staged in.
pub const GCR_REGISTRY: &'static str = "gcr.io/o1labs-192920";

/// The registry that images are published in.
pub const DOCKER_IO_REGISTRY: &'static str = "docker.io/minaprotocol";

/// What a promotion is asked to do.
#[derive(Clone, Debug)]
pub struct DockerPromoteConfig {
    /// Name of the image.
    pub name: String,
    /// Tag that the image has.
    pub source_version: String,
    /// Tag that the image gets.
    pub target_version: String,
    /// Whether the image goes to the public registry.
    pub publish_to_docker_io: bool,
    /// Whether progress is shown.
    pub quiet: bool,
}

/// The mathematical content of a [`DockerPromoteConfig`].
pub struct DockerPromoteConfigView {
    pub name: Seq<char>,
    pub source_version: Seq<char>,
    pub target_version: Seq<char>,
    pub publish_to_docker_io: bool,
    pub quiet: bool,
}

impl View for DockerPromoteConfig {
    type V = DockerPromoteConfigView;

    open spec fn view(&self) -> DockerPromoteConfigView {
        DockerPromoteConfigView {
            name: self.name@,
            source_version: self.source_version@,
            target_version: self.target_version@,
            publish_to_docker_io: self.publish_to_docker_io,
            quiet: self.quiet,
        }
    }
}

/// A promotion between two registries, with both ends spelled out.
#[derive(Clone, Debug)]
pub struct DockerRegistryConfig {
    pub source_registry: String,
    pub target_registry: String,
    pub image_name: String,
    pub source_tag: String,
    pub target_tag: String,
}

/// The mathematical content of a [`DockerRegistryConfig`].
pub struct DockerRegistryConfigView {
    pub source_registry: Seq<char>,
    pub target_registry: Seq<char>,
    pub image_name: Seq<char>,
    pub source_tag: Seq<char>,
    pub target_tag: Seq<char>,
}

impl View for DockerRegistryConfig {
    type V = DockerRegistryConfigView;

    open spec fn view(&self) -> DockerRegistryConfigView {
        DockerRegistryConfigView {
            source_registry: self.source_registry@,
            target_registry: self.target_registry@,
            image_name: self.image_name@,
            source_tag: self.source_tag@,
            target_tag: self.target_tag@,
        }
    }
}

/// How far a promotion has come.
#[derive(Clone, Copy, Debug, PartialEq, Eq, Structural)]
pub enum PromoteStage {
    /// Nothing was done yet.
    Start,
    /// The source image is being pulled.
    Pulling,
    /// The image is being tagged for the target.
    Tagging,
    /// The target image is being pushed.
    Pushing,
    /// The promotion is over.
    Done,
}

/// The full reference of an image: registry, name and tag.
pub open spec fn image_reference(registry: Seq<char>, name: Seq<char>, tag: Seq<char>) -> Seq<
    char,
> {
    registry + "/"@ + name + ":"@ + tag
}

/// The failure that ends a promotion.
pub open spec fn promotion_failed(e: ErrorView) -> (PromoteStage, ActionView) {
    (PromoteStage::Done, ActionView::Fail(e))
}

impl DockerRegistryConfigView {
    /// What is wrong with the configuration, if anything: no part of either
    /// reference may be empty.
    pub open spec fn config_error(self) -> Option<ErrorView> {
        if self.source_registry.len() == 0 {
            Some(ErrorView::ValidationError("Source registry cannot be empty"@))
        } else if self.target_registry.len() == 0 {
            Some(ErrorView::ValidationError("Target registry cannot be empty"@))
        } else if self.image_name.len() == 0 {
            Some(ErrorView::ValidationError("Image name cannot be empty"@))
        } else if self.source_tag.len() == 0 {
            Some(ErrorView::ValidationError("Source tag cannot be empty"@))
        } else if self.target_tag.len() == 0 {
            Some(ErrorView::ValidationError("Target tag cannot be empty"@))
        } else {
            None
        }
    }

    /// The reference of the image that is promoted.
    pub open spec fn source_image(self) -> Seq<char> {
        image_reference(self.source_registry, self.image_name, self.source_tag)
    }

    /// The reference that the image is promoted to.
    pub open spec fn target_image(self) -> Seq<char> {
        image_reference(self.target_registry, self.image_name, self.target_tag)
    }

    /// The command that pulls the source image.
    pub open spec fn pull_command(self) -> CommandLineView {
        command("docker"@).arg("pull"@).arg(self.source_image())
    }

    /// The command that tags the source image for the target.
    pub open spec fn tag_command(self) -> CommandLineView {
        command("docker"@).arg("tag"@).arg(self.source_image()).arg(self.target_image())
    }

    /// The command that pushes the target image.
    pub open spec fn push_command(self) -> CommandLineView {
        command("docker"@).arg("push"@).arg(self.target_image())
    }

    /// The step that a promotion takes at `stage` when `event` comes in.
    ///
    /// The configuration is checked before any command is asked for. Then
    /// the image is pulled, tagged and pushed, in this order; the first
    /// command that fails ends the promotion with its own output, and none
    /// is tried again.
    pub open spec fn step(self, stage: PromoteStage, event: EventView) -> (
        PromoteStage,
        ActionView,
    ) {
        match (stage, event) {
            (PromoteStage::Start, EventView::Begin) => match self.config_error() {
                Some(e) => promotion_failed(e),
                None => (PromoteStage::Pulling, ActionView::Run(self.pull_command())),
            },
            (PromoteStage::Pulling, EventView::Command(outcome)) => match command_failure(
                outcome,
                "Failed to pull image: "@,
                "Docker pull failed: "@,
            ) {
                Some(e) => promotion_failed(e),
                None => (PromoteStage::Tagging, ActionView::Run(self.tag_command())),
            },
            (PromoteStage::Tagging, EventView::Command(outcome)) => match command_failure(
                outcome,
                "Failed to tag image: "@,
                "Docker tag failed: "@,
            ) {
                Some(e) => promotion_failed(e),
                None => (PromoteStage::Pushing, ActionView::Run(self.push_command())),
            },
            (PromoteStage::Pushing, EventView::Command(outcome)) => match command_failure(
                outcome,
                "Failed to push image: "@,
                "Docker push failed: "@,
            ) {
                Some(e) => promotion_failed(e),
                None => (PromoteStage::Done, ActionView::Complete(None)),
            },
            _ => promotion_failed(ErrorView::ValidationError("unexpected event"@)),
        }
    }
}

impl DockerPromoteConfigView {
    /// What is wrong with the configuration, if anything: the name and both
    /// tags must not be empty.
    pub open spec fn config_error(self) -> Option<ErrorView> {
        if self.name.len() == 0 {
            Some(ErrorView::ValidationError("Name cannot be empty"@))
        } else if self.source_version.len() == 0 {
            Some(ErrorView::ValidationError("Source version cannot be empty"@))
        } else if self.target_version.len() == 0 {
            Some(ErrorView::ValidationError("Target version cannot be empty"@))
        } else {
            None
        }
    }

    /// The two ends of the promotion. The image comes from the staging
    /// registry; it goes to the public one where that is asked for, and
    /// stays in the staging one otherwise.
    pub open spec fn registry_config(self) -> DockerRegistryConfigView {
        DockerRegistryConfigView {
            source_registry: GCR_REGISTRY@,
            target_registry: if self.publish_to_docker_io {
                DOCKER_IO_REGISTRY@
            } else {
                GCR_REGISTRY@
            },
            image_name: self.name,
            source_tag: self.source_version,
            target_tag: self.target_version,
        }
    }

    /// The step that a promotion takes at `stage` when `event` comes in: the
    /// configuration is checked first, and then the promotion goes on
    /// between the two registries.
    pub open spec fn step(self, stage: PromoteStage, event: EventView) -> (
        PromoteStage,
        ActionView,
    ) {
        match (stage, event, self.config_error()) {
            (PromoteStage::Start, EventView::Begin, Some(e)) => promotion_failed(e),
            _ => self.registry_config().step(stage, event),
        }
    }
}

/// A promotion that is not well configured asks for no command: its first
/// step is the validation failure.
pub proof fn lemma_invalid_promotion_runs_nothing(config: DockerPromoteConfigView)
    requires
        config.config_error() is Some,
    ensures
        config.step(PromoteStage::Start, EventView::Begin) == promotion_failed(
            config.config_error()->0,
        ),
        config.step(PromoteStage::Start, EventView::Begin).1 is Fail,
{
}

/// The failure that ends a promotion.
fn failed(e: ManagerError) -> (r: (PromoteStage, Action))
    ensures
        (r.0, r.1@) == promotion_failed(e@),
{
    (PromoteStage::Done, Action::Fail(e))
}

/// Moves an image from one registry and tag to another.
#[derive(Debug)]
pub struct DockerRegistryManager {
    pub config: DockerRegistryConfig,
}

impl View for DockerRegistryManager {
    type V = DockerRegistryConfigView;

    open spec fn view(&self) -> DockerRegistryConfigView {
        self.config@
    }
}

impl DockerRegistryManager {
    /// A manager for the promotion that `config` describes.
    pub fn new(config: DockerRegistryConfig) -> (manager: DockerRegistryManager)
        ensures
            manager.config == config,
    {
        DockerRegistryManager { config }
    }

    /// Checks that no part of either reference is empty.
    pub fn validate_config(&self) -> (r: ManagerResult<()>)
        ensures
            unit_view(r) == match self@.config_error() {
                Some(e) => Err::<(), ErrorView>(e),
                None => Ok::<(), ErrorView>(()),
            },
    {
        if self.config.source_registry.as_str().is_empty() {
            Err(ManagerError::validation("Source registry cannot be empty"))
        } else if self.config.target_registry.as_str().is_empty() {
            Err(ManagerError::validation("Target registry cannot be empty"))
        } else if self.config.image_name.as_str().is_empty() {
            Err(ManagerError::validation("Image name cannot be empty"))
        } else if self.config.source_tag.as_str().is_empty() {
            Err(ManagerError::validation("Source tag cannot be empty"))
        } else if self.config.target_tag.as_str().is_empty() {
            Err(ManagerError::validation("Target tag cannot be empty"))
        } else {
            Ok(())
        }
    }

    /// The reference of the image that is promoted.
    pub fn source_image(&self) -> (image: String)
        ensures
            image@ == self@.source_image(),
    {
        let mut image = self.config.source_registry.clone();
        image.append("/");
        image.append(self.config.image_name.as_str());
        image.append(":");
        image.append(self.config.source_tag.as_str());
        image
    }

    /// The reference that the image is promoted to.
    pub fn target_image(&self) -> (image: String)
        ensures
            image@ == self@.target_image(),
    {
        let mut image = self.config.target_registry.clone();
        image.append("/");
        image.append(self.config.image_name.as_str());
        image.append(":");
        image.append(self.config.target_tag.as_str());
        image
    }

    /// The command that pulls the source image.
    pub fn pull_image(&self) -> (line: CommandLine)
        ensures
            line@ == self@.pull_command(),
    {
        CommandLine::new("docker").arg("pull").arg(self.source_image().as_str())
    }

    /// The command that tags the source image for the target.
    pub fn tag_image(&self) -> (line: CommandLine)
        ensures
            line@ == self@.tag_command(),
    {
        CommandLine::new("docker").arg("tag").arg(self.source_image().as_str()).arg(
            self.target_image().as_str(),
        )
    }

    /// The command that pushes the target image.
    pub fn push_image(&self) -> (line: CommandLine)
        ensures
            line@ == self@.push_command(),
    {
        CommandLine::new("docker").arg("push").arg(self.target_image().as_str())
    }

    /// The step that the promotion takes at `stage` when `event` comes in.
    /// The first call takes [`PromoteStage::Start`] and [`Event::Begin`];
    /// each later call takes the stage that the call before gave, and the
    /// outcome of the command that it asked for.
    pub fn cross_registry_promote(&self, stage: PromoteStage, event: Event) -> (r: (
        PromoteStage,
        Action,
    ))
        ensures
            (r.0, r.1@) == self@.step(stage, event@),
    {
        match (stage, event) {
            (PromoteStage::Start, Event::Begin) => match self.validate_config() {
                Err(e) => failed(e),
                Ok(_) => (PromoteStage::Pulling, Action::Run(self.pull_image())),
            },
            (PromoteStage::Pulling, Event::Command(outcome)) => match check_command(
                &outcome,
                "Failed to pull image: ",
                "Docker pull failed: ",
            ) {
                Some(e) => failed(e),
                None => (PromoteStage::Tagging, Action::Run(self.tag_image())),
            },
            (PromoteStage::Tagging, Event::Command(outcome)) => match check_command(
                &outcome,
                "Failed to tag image: ",
                "Docker tag failed: ",
            ) {
                Some(e) => failed(e),
                None => (PromoteStage::Pushing, Action::Run(self.push_image())),
            },
            (PromoteStage::Pushing, Event::Command(outcome)) => match check_command(
                &outcome,
                "Failed to push image: ",
                "Docker push failed: ",
            ) {
                Some(e) => failed(e),
                None => (PromoteStage::Done, Action::Complete(None)),
            },
            _ => failed(ManagerError::validation("unexpected event")),
        }
    }
}

/// Promotes an image from its source tag to its target tag.
#[derive(Debug)]
pub struct DockerPromoter {
    pub config: DockerPromoteConfig,
}

impl View for DockerPromoter {
    type V = DockerPromoteConfigView;

    open spec fn view(&self) -> DockerPromoteConfigView {
        self.config@
    }
}

impl DockerPromoter {
    /// A promoter for the promotion that `config` describes.
    pub fn new(config: DockerPromoteConfig) -> (promoter: DockerPromoter)
        ensures
            promoter.config == config,
    {
        DockerPromoter { config }
    }

    /// Checks that the name and both tags are not empty.
    pub fn validate_config(&self) -> (r: ManagerResult<()>)
        ensures
            unit_view(r) == match self@.config_error() {
                Some(e) => Err::<(), ErrorView>(e),
                None => Ok::<(), ErrorView>(()),
            },
    {
        if self.config.name.as_str().is_empty() {
            Err(ManagerError::validation("Name cannot be empty"))
        } else if self.config.source_version.as_str().is_empty() {
            Err(ManagerError::validation("Source version cannot be empty"))
        } else if self.config.target_version.as_str().is_empty() {
            Err(ManagerError::validation("Target version cannot be empty"))
        } else {
            Ok(())
        }
    }

    /// The two ends of the promotion.
    pub fn registry_config(&self) -> (config: DockerRegistryConfig)
        ensures
            config@ == self@.registry_config(),
    {
        DockerRegistryConfig {
            source_registry: String::from_str(GCR_REGISTRY),
            target_registry: if self.config.publish_to_docker_io {
                String::from_str(DOCKER_IO_REGISTRY)
            } else {
                String::from_str(GCR_REGISTRY)
            },
            image_name: self.config.name.clone(),
            source_tag: self.config.source_version.clone(),
            target_tag: self.config.target_version.clone(),
        }
    }

    /// The step that the promotion takes at `stage` when `event` comes in.
    /// The first call takes [`PromoteStage::Start`] and [`Event::Begin`];
    /// each later call takes the stage that the call before gave, and the
    /// outcome of the command that it asked for.
    pub fn promote(&self, stage: PromoteStage, event: Event) -> (r: (PromoteStage, Action))
        ensures
            (r.0, r.1@) == self@.step(stage, event@),
    {
        let first = match (stage, &event) {
            (PromoteStage::Start, Event::Begin) => true,
            _ => false,
        };
        if first {
            match self.validate_config() {
                Err(e) => {
                    return failed(e);
                },
                Ok(_) => {},
            }
        }
        let manager = DockerRegistryManager::new(self.registry_config());
        manager.cross_registry_promote(stage, event)
    }
}

/// A promoter for the image `name`, ready to take its first step.
pub fn promote_docker_image(
    name: &str,
    source_version: &str,
    target_version: &str,
    publish_to_docker_io: bool,
    quiet: bool,
) -> (promoter: DockerPromoter)
    ensures
        promoter@ == (DockerPromoteConfigView {
            name: name@,
            source_version: source_version@,
            target_version: target_version@,
            publish_to_docker_io,
            quiet,
        }),
{
    DockerPromoter::new(
        DockerPromoteConfig {
            name: String::from_str(name),
            source_version: String::from_str(source_version),
            target_version: String::from_str(target_version),
            publish_to_docker_io,
            quiet,
        },
    )
}

} // verus!
