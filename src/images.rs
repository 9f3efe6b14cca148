use vstd::prelude::*;

use crate::config::{ExtraServiceView, LlmChatConfig, StackConfigView, strings_view};

verus! {

/// Repository of the primary service's image.
pub const OPEN_WEBUI_IMAGE_BASE: &'static str = "ghcr.io/open-webui/open-webui";

/// Repository of the auxiliary service's image.
pub const TIKA_IMAGE_BASE: &'static str = "docker.io/apache/tika";

/// A repository and a tag joined into an image reference.
pub open spec fn image_reference(base: Seq<char>, tag: Seq<char>) -> Seq<char> {
    base + ":"@ + tag
}

pub open spec fn openwebui_image_ref(c: StackConfigView) -> Seq<char> {
    image_reference(OPEN_WEBUI_IMAGE_BASE@, c.openwebui_image_tag)
}

pub open spec fn tika_image_ref(c: StackConfigView) -> Seq<char> {
    image_reference(TIKA_IMAGE_BASE@, c.tika_image_tag)
}

/// Every image a configuration needs, in pull order: primary, auxiliary,
/// then each extra service's image as written.
pub open spec fn required_image_refs(c: StackConfigView) -> Seq<Seq<char>> {
    seq![openwebui_image_ref(c), tika_image_ref(c)] + c.extra_services.map_values(
        |s: ExtraServiceView| s.image,
    )
}

/// The image of the primary service.
pub fn openwebui_image(config: &LlmChatConfig) -> (r: String)
    ensures
        r@ == openwebui_image_ref(config@),
{
    let mut r = String::from_str(OPEN_WEBUI_IMAGE_BASE);
    r.append(":");
    r.append(config.openwebui_image_tag.as_str());
    r
}

/// The image of the auxiliary service.
pub fn tika_image(config: &LlmChatConfig) -> (r: String)
    ensures
        r@ == tika_image_ref(config@),
{
    let mut r = String::from_str(TIKA_IMAGE_BASE);
    r.append(":");
    r.append(config.tika_image_tag.as_str());
    r
}

/// The images to pull before provisioning, in order.
pub fn required_images(config: &LlmChatConfig) -> (r: Vec<String>)
    ensures
        strings_view(r@) == required_image_refs(config@),
{
    let mut r: Vec<String> = Vec::new();
    r.push(openwebui_image(config));
    r.push(tika_image(config));
    let ghost head = seq![openwebui_image_ref(config@), tika_image_ref(config@)];
    let ghost extras = config@.extra_services;
    assert(strings_view(r@) =~= head);
    match &config.extra_backend_services {
        None => {
            assert(required_image_refs(config@) =~= head);
        },
        Some(services) => {
            let mut i: usize = 0;
            while i < services.len()
                invariant
                    i <= services.len(),
                    config.extra_backend_services == Some(*services),
                    extras == config@.extra_services,
                    extras.len() == services.len(),
                    r@.len() == i + 2,
                    strings_view(r@) =~= head + extras.take(i as int).map_values(
                        |s: ExtraServiceView| s.image,
                    ),
                decreases services.len() - i,
            {
                let ghost before = r@;
                r.push(services[i].image.clone());
                assert(extras[i as int] == services@[i as int]@);
                assert(extras.take(i + 1).map_values(|s: ExtraServiceView| s.image) =~= extras.take(
                    i as int,
                ).map_values(|s: ExtraServiceView| s.image).push(extras[i as int].image));
                assert(strings_view(r@) =~= strings_view(before).push(r@[i + 2]@));
                i = i + 1;
            }
            assert(extras.take(i as int) =~= extras);
        },
    }
    r
}

} // verus!
