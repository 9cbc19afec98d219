//! Storypack presentations: a folder with the assets of a picture book and a
//! page of HTML that shows them.
//!
//! A presentation has up to one cover, prologue, epilogue and credits page and
//! any number of chapters in between. Narration files go to the pages in
//! order, one each, as far as they reach. This module lays out the folder,
//! lists the files to copy into it and writes the page.

use vstd::prelude::*;
use vstd::string::*;
use crate::command::{optional_invocation, Invocation, InvocationView};
use crate::markup;
use crate::markup::{
    document, hosted_video_block, local_video_block, narration_element, page_block,
    theme_element, youtube_block,
};
use crate::paths;
use crate::paths::{extension_of, join_of};
use crate::text::{
    decimal, decimal_string, join, joined, no_texts, optional_text, push_text, some_or, text_or,
    texts,
};

verus! {

/// What the user chose for one presentation.
#[derive(Debug, Clone)]
pub struct StoryspackConfig {
    pub project_name: String,
    pub cover_image: Option<String>,
    pub prologue_image: Option<String>,
    pub chapter_images: Vec<String>,
    pub epilogue_image: Option<String>,
    pub credits_image: Option<String>,
    pub narration_audio: Vec<String>,
    pub theme_audio: Option<String>,
    pub video_source: Option<VideoSource>,
}

/// Where the presentation's video comes from.
#[derive(Debug, Clone)]
pub enum VideoSource {
    YouTube { video_id: String },
    Hosted { url: String },
    Local { path: String },
}

/// A `VideoSource` as characters.
pub enum VideoSourceView {
    YouTube { video_id: Seq<char> },
    Hosted { url: Seq<char> },
    Local { path: Seq<char> },
}

/// A `StoryspackConfig` as characters.
pub struct StoryspackView {
    pub project_name: Seq<char>,
    pub cover_image: Option<Seq<char>>,
    pub prologue_image: Option<Seq<char>>,
    pub chapter_images: Seq<Seq<char>>,
    pub epilogue_image: Option<Seq<char>>,
    pub credits_image: Option<Seq<char>>,
    pub narration_audio: Seq<Seq<char>>,
    pub theme_audio: Option<Seq<char>>,
    pub video_source: Option<VideoSourceView>,
}

impl View for VideoSource {
    type V = VideoSourceView;

    open spec fn view(&self) -> VideoSourceView {
        match *self {
            VideoSource::YouTube { video_id } => VideoSourceView::YouTube { video_id: video_id@ },
            VideoSource::Hosted { url } => VideoSourceView::Hosted { url: url@ },
            VideoSource::Local { path } => VideoSourceView::Local { path: path@ },
        }
    }
}

/// The view of an optional video source.
pub open spec fn optional_video(source: Option<VideoSource>) -> Option<VideoSourceView> {
    match source {
        Some(v) => Some(v@),
        None => None,
    }
}

impl View for StoryspackConfig {
    type V = StoryspackView;

    open spec fn view(&self) -> StoryspackView {
        StoryspackView {
            project_name: self.project_name@,
            cover_image: optional_text(self.cover_image),
            prologue_image: optional_text(self.prologue_image),
            chapter_images: texts(self.chapter_images@),
            epilogue_image: optional_text(self.epilogue_image),
            credits_image: optional_text(self.credits_image),
            narration_audio: texts(self.narration_audio@),
            theme_audio: optional_text(self.theme_audio),
            video_source: optional_video(self.video_source),
        }
    }
}

/// The extension under which the page refers to the copy of `path`: the
/// path's own, or `jpg` where it has none. The copy itself keeps the bare
/// name in that case (see `copy_name_of`), so the page then names a file that
/// is not there.
pub open spec fn media_extension(path: Seq<char>) -> Seq<char> {
    some_or(extension_of(path), "jpg"@)
}

/// The extension under which the page refers to the copy of `path`.
pub fn get_extension(path: &str) -> (r: String)
    ensures
        r@ == media_extension(path@),
{
    text_or(paths::extension(path), "jpg")
}

/// `prefix` followed by the numeral of `number`.
pub open spec fn numbered(prefix: Seq<char>, number: nat) -> Seq<char> {
    prefix + decimal(number)
}

/// Writes `prefix` followed by `number`.
pub fn numbered_name(prefix: &str, number: usize) -> (r: String)
    ensures
        r@ == numbered(prefix@, number as nat),
{
    let mut out = String::from_str(prefix);
    out.append(decimal_string(number).as_str());
    out
}

/// One page of the presentation: the name that its image is copied under, the
/// title shown for it, and the image the user chose.
#[derive(Debug, Clone)]
pub struct Slot {
    pub name: String,
    pub title: String,
    pub image: String,
}

/// A `Slot` as characters.
pub struct SlotView {
    pub name: Seq<char>,
    pub title: Seq<char>,
    pub image: Seq<char>,
}

impl View for Slot {
    type V = SlotView;

    open spec fn view(&self) -> SlotView {
        SlotView { name: self.name@, title: self.title@, image: self.image@ }
    }
}

/// The views of the slots of `v`, in order.
pub open spec fn slot_views(v: Seq<Slot>) -> Seq<SlotView> {
    v.map_values(|s: Slot| s@)
}

/// The slot of a page that exists only where an image was chosen for it.
pub open spec fn optional_slot(
    name: Seq<char>,
    title: Seq<char>,
    image: Option<Seq<char>>,
) -> Seq<SlotView> {
    match image {
        Some(path) => seq![SlotView { name, title, image: path }],
        None => Seq::empty(),
    }
}

/// The slot of the chapter numbered `number`, counting from 1.
pub open spec fn chapter_slot(number: nat, image: Seq<char>) -> SlotView {
    SlotView {
        name: numbered("chapter"@, number),
        title: numbered("Chapter "@, number),
        image,
    }
}

/// One slot for each chapter image, numbered from 1.
pub open spec fn chapter_slots(images: Seq<Seq<char>>) -> Seq<SlotView> {
    Seq::new(images.len(), |i: int| chapter_slot((i + 1) as nat, images[i]))
}

/// The pages of the presentation in the order they are shown: cover,
/// prologue, the chapters, epilogue, credits.
pub open spec fn slots_of(c: StoryspackView) -> Seq<SlotView> {
    optional_slot("cover"@, "Cover"@, c.cover_image) + optional_slot(
        "prologue"@,
        "Prologue"@,
        c.prologue_image,
    ) + chapter_slots(c.chapter_images) + optional_slot("epilogue"@, "Epilogue"@, c.epilogue_image)
        + optional_slot("credits"@, "Credits"@, c.credits_image)
}

fn push_optional_slot(slots: &mut Vec<Slot>, name: &str, title: &str, image: &Option<String>)
    ensures
        slot_views(final(slots)@) == slot_views(old(slots)@) + optional_slot(
            name@,
            title@,
            optional_text(*image),
        ),
{
    if let Some(path) = image {
        let slot = Slot {
            name: String::from_str(name),
            title: String::from_str(title),
            image: path.clone(),
        };
        slots.push(slot);
        assert(slot_views(slots@) == slot_views(old(slots)@).push(slot@));
    }
}

/// Lists the pages of the presentation in the order they are shown.
pub fn page_slots(config: &StoryspackConfig) -> (r: Vec<Slot>)
    ensures
        slot_views(r@) == slots_of(config@),
{
    let mut slots: Vec<Slot> = Vec::new();
    push_optional_slot(&mut slots, "cover", "Cover", &config.cover_image);
    push_optional_slot(&mut slots, "prologue", "Prologue", &config.prologue_image);
    let ghost before = slot_views(slots@);
    let ghost chapters = chapter_slots(config@.chapter_images);
    let mut i: usize = 0;
    while i < config.chapter_images.len()
        invariant
            i <= config.chapter_images.len(),
            chapters == chapter_slots(config@.chapter_images),
            slot_views(slots@) == before + chapters.take(i as int),
        decreases config.chapter_images.len() - i,
    {
        let ghost earlier = slots@;
        let slot = Slot {
            name: numbered_name("chapter", i + 1),
            title: numbered_name("Chapter ", i + 1),
            image: config.chapter_images[i].clone(),
        };
        slots.push(slot);
        proof {
            assert(slot@ == chapters[i as int]);
            assert(slot_views(slots@) == slot_views(earlier).push(slot@));
            assert(chapters.take(i + 1) == chapters.take(i as int).push(chapters[i as int]));
        }
        i += 1;
    }
    assert(chapters.take(i as int) == chapters);
    push_optional_slot(&mut slots, "epilogue", "Epilogue", &config.epilogue_image);
    push_optional_slot(&mut slots, "credits", "Credits", &config.credits_image);
    slots
}

/// The narration element of the page at `position`, counting from 0: the
/// narration file of the same position, or nothing where the files have run
/// out.
pub open spec fn page_audio_of(narration: Seq<Seq<char>>, position: int) -> Seq<char> {
    if 0 <= position < narration.len() {
        narration_element((position + 1) as nat, media_extension(narration[position]))
    } else {
        Seq::empty()
    }
}

/// The markup of the page `slot` shown at `position`.
pub open spec fn slot_html(narration: Seq<Seq<char>>, slot: SlotView, position: int) -> Seq<
    char,
> {
    page_block(
        slot.name,
        slot.title,
        media_extension(slot.image),
        page_audio_of(narration, position),
    )
}

/// The markup of each page of `slots`, in order.
pub open spec fn pages_of(narration: Seq<Seq<char>>, slots: Seq<SlotView>) -> Seq<Seq<char>> {
    Seq::new(slots.len(), |k: int| slot_html(narration, slots[k], k))
}

/// The theme music element, or nothing where no theme was chosen.
pub open spec fn theme_of(theme: Option<Seq<char>>) -> Seq<char> {
    match theme {
        Some(path) => theme_element(media_extension(path)),
        None => Seq::empty(),
    }
}

/// The video block, or nothing where no video was chosen.
pub open spec fn video_of(source: Option<VideoSourceView>) -> Seq<char> {
    match source {
        Some(VideoSourceView::YouTube { video_id }) => youtube_block(video_id),
        Some(VideoSourceView::Hosted { url }) => hosted_video_block(url),
        Some(VideoSourceView::Local { path }) => local_video_block(media_extension(path)),
        None => Seq::empty(),
    }
}

/// The page of HTML that shows the presentation `c`.
pub open spec fn html_document(c: StoryspackView) -> Seq<char> {
    document(
        c.project_name,
        theme_of(c.theme_audio),
        video_of(c.video_source),
        joined(pages_of(c.narration_audio, slots_of(c)), "\n"@),
    )
}

/// Writes the narration element of the page at `position`, counting from 0.
pub fn page_audio(narration: &Vec<String>, position: usize) -> (r: String)
    ensures
        r@ == page_audio_of(texts(narration@), position as int),
{
    if position < narration.len() {
        let extension = get_extension(narration[position].as_str());
        markup::narration_tag(position + 1, extension.as_str())
    } else {
        String::new()
    }
}

/// Writes the theme music element.
pub fn theme_html(theme: &Option<String>) -> (r: String)
    ensures
        r@ == theme_of(optional_text(*theme)),
{
    match theme {
        Some(path) => markup::theme_tag(get_extension(path.as_str()).as_str()),
        None => String::new(),
    }
}

/// Writes the video block.
pub fn video_html(source: &Option<VideoSource>) -> (r: String)
    ensures
        r@ == video_of(optional_video(*source)),
{
    match source {
        Some(VideoSource::YouTube { video_id }) => markup::youtube_html(video_id.as_str()),
        Some(VideoSource::Hosted { url }) => markup::hosted_video_html(url.as_str()),
        Some(VideoSource::Local { path }) => markup::local_video_html(
            get_extension(path.as_str()).as_str(),
        ),
        None => String::new(),
    }
}

/// Writes the page of HTML that shows the presentation.
pub fn create_html_template(config: &StoryspackConfig) -> (html: String)
    ensures
        html@ == html_document(config@),
{
    let slots = page_slots(config);
    let ghost all = pages_of(config@.narration_audio, slots_of(config@));
    let mut pages: Vec<String> = Vec::new();
    let mut k: usize = 0;
    while k < slots.len()
        invariant
            k <= slots.len(),
            slot_views(slots@) == slots_of(config@),
            all == pages_of(config@.narration_audio, slots_of(config@)),
            texts(pages@) == all.take(k as int),
        decreases slots.len() - k,
    {
        let ghost earlier = pages@;
        let slot = &slots[k];
        let extension = get_extension(slot.image.as_str());
        let audio = page_audio(&config.narration_audio, k);
        let page = markup::page_html(
            slot.name.as_str(),
            slot.title.as_str(),
            extension.as_str(),
            audio.as_str(),
        );
        pages.push(page);
        proof {
            assert(slot@ == slots_of(config@)[k as int]);
            assert(page@ == all[k as int]);
            assert(texts(pages@) == texts(earlier).push(page@));
            assert(all.take(k + 1) == all.take(k as int).push(all[k as int]));
        }
        k += 1;
    }
    assert(all.take(k as int) == all);
    let pages_html = join(&pages, "\n");
    let theme = theme_html(&config.theme_audio);
    let video = video_html(&config.video_source);
    markup::document_html(
        config.project_name.as_str(),
        theme.as_str(),
        video.as_str(),
        pages_html.as_str(),
    )
}

/// Writes the style sheet, the same for every presentation.
pub fn create_css_template() -> (css: String)
    ensures
        css@ == markup::STYLESHEET@,
{
    String::from_str(markup::STYLESHEET)
}

/// Where the parts of a presentation go on disk.
#[derive(Debug, Clone)]
pub struct Layout {
    /// The folder of the presentation.
    pub project: String,
    /// The folder of its images.
    pub images: String,
    /// The folder of its narration and theme music.
    pub audio: String,
    /// The folder of its video.
    pub video: String,
    /// The page of HTML.
    pub html: String,
    /// The style sheet.
    pub css: String,
}

/// A `Layout` as characters.
pub struct LayoutView {
    pub project: Seq<char>,
    pub images: Seq<char>,
    pub audio: Seq<char>,
    pub video: Seq<char>,
    pub html: Seq<char>,
    pub css: Seq<char>,
}

impl View for Layout {
    type V = LayoutView;

    open spec fn view(&self) -> LayoutView {
        LayoutView {
            project: self.project@,
            images: self.images@,
            audio: self.audio@,
            video: self.video@,
            html: self.html@,
            css: self.css@,
        }
    }
}

/// The layout of the presentation `project_name` in `output_folder`: a folder
/// of that name, with `index.html` and `styles.css` in it and the folders
/// `images`, `audio` and `video` under its `assets`.
pub open spec fn layout_of(output_folder: Seq<char>, project_name: Seq<char>) -> LayoutView {
    let project = join_of(output_folder, project_name);
    let assets = join_of(project, "assets"@);
    LayoutView {
        project,
        images: join_of(assets, "images"@),
        audio: join_of(assets, "audio"@),
        video: join_of(assets, "video"@),
        html: join_of(project, "index.html"@),
        css: join_of(project, "styles.css"@),
    }
}

/// The folders of `layout` in the order to create them.
pub open spec fn folders_of(layout: LayoutView) -> Seq<Seq<char>> {
    seq![layout.project, layout.images, layout.audio, layout.video]
}

/// Lays out the presentation `project_name` in `output_folder`.
pub fn layout(output_folder: &str, project_name: &str) -> (r: Layout)
    ensures
        r@ == layout_of(output_folder@, project_name@),
{
    let project = paths::join(output_folder, project_name);
    let assets = paths::join(project.as_str(), "assets");
    let images = paths::join(assets.as_str(), "images");
    let audio = paths::join(assets.as_str(), "audio");
    let video = paths::join(assets.as_str(), "video");
    let html = paths::join(project.as_str(), "index.html");
    let css = paths::join(project.as_str(), "styles.css");
    Layout { project, images, audio, video, html, css }
}

/// Lists the folders of `layout` in the order to create them.
pub fn folders(layout: &Layout) -> (r: Vec<String>)
    ensures
        texts(r@) == folders_of(layout@),
{
    let mut list = no_texts();
    push_text(&mut list, layout.project.as_str());
    push_text(&mut list, layout.images.as_str());
    push_text(&mut list, layout.audio.as_str());
    push_text(&mut list, layout.video.as_str());
    assert(texts(list@) =~= folders_of(layout@));
    list
}

/// One file to copy into the presentation.
#[derive(Debug, Clone)]
pub struct CopyJob {
    pub source: String,
    pub destination: String,
}

/// A `CopyJob` as characters.
pub struct CopyJobView {
    pub source: Seq<char>,
    pub destination: Seq<char>,
}

impl View for CopyJob {
    type V = CopyJobView;

    open spec fn view(&self) -> CopyJobView {
        CopyJobView { source: self.source@, destination: self.destination@ }
    }
}

/// The views of the jobs of `v`, in order.
pub open spec fn job_views(v: Seq<CopyJob>) -> Seq<CopyJobView> {
    v.map_values(|j: CopyJob| j@)
}

/// The name of a copy called `base` of a file with the extension `found`:
/// `base` with the extension, or `base` alone where the file has none or an
/// empty one.
pub open spec fn copy_name_of(base: Seq<char>, found: Option<Seq<char>>) -> Seq<char> {
    match found {
        Some(extension) => if extension.len() == 0 {
            base
        } else {
            base + "."@ + extension
        },
        None => base,
    }
}

/// The copy of `source` into `folder` under the name `base`, keeping its
/// extension.
pub open spec fn copy_of(source: Seq<char>, folder: Seq<char>, base: Seq<char>) -> CopyJobView {
    CopyJobView {
        source,
        destination: join_of(folder, copy_name_of(base, extension_of(source))),
    }
}

/// The copy of `source`, if there is one, into `folder` under the name `base`.
pub open spec fn optional_copy(
    source: Option<Seq<char>>,
    folder: Seq<char>,
    base: Seq<char>,
) -> Seq<CopyJobView> {
    match source {
        Some(path) => seq![copy_of(path, folder, base)],
        None => Seq::empty(),
    }
}

/// The copies of the images of `slots` into `folder`, each under the name of
/// its page.
pub open spec fn image_copies(folder: Seq<char>, slots: Seq<SlotView>) -> Seq<CopyJobView> {
    Seq::new(slots.len(), |k: int| copy_of(slots[k].image, folder, slots[k].name))
}

/// The copies of the narration files into `folder`, numbered from 1.
pub open spec fn narration_copies(folder: Seq<char>, narration: Seq<Seq<char>>) -> Seq<
    CopyJobView,
> {
    Seq::new(
        narration.len(),
        |i: int| copy_of(narration[i], folder, numbered("narration"@, (i + 1) as nat)),
    )
}

/// The path of the video file to copy: that of a local video source.
pub open spec fn local_video_of(source: Option<VideoSourceView>) -> Option<Seq<char>> {
    match source {
        Some(VideoSourceView::Local { path }) => Some(path),
        _ => None,
    }
}

/// Every file to copy into the presentation `c` laid out as `l`, in order:
/// the images of the pages, the narration, the theme music, a local video.
pub open spec fn copies_of(c: StoryspackView, l: LayoutView) -> Seq<CopyJobView> {
    image_copies(l.images, slots_of(c)) + narration_copies(l.audio, c.narration_audio)
        + optional_copy(c.theme_audio, l.audio, "theme"@) + optional_copy(
        local_video_of(c.video_source),
        l.video,
        "video"@,
    )
}

/// Names a copy called `base` of a file with the extension `found`.
pub fn copy_name(base: &str, found: Option<String>) -> (r: String)
    ensures
        r@ == copy_name_of(base@, optional_text(found)),
{
    let mut name = String::from_str(base);
    match found {
        Some(extension) => {
            if !extension.as_str().is_empty() {
                name.append(".");
                name.append(extension.as_str());
            }
        },
        None => {},
    }
    name
}

/// Says where to copy `source` so that it lies in `folder` under the name
/// `base` with its own extension.
pub fn copy_job(source: &str, folder: &str, base: &str) -> (r: CopyJob)
    ensures
        r@ == copy_of(source@, folder@, base@),
{
    let name = copy_name(base, paths::extension(source));
    CopyJob { source: String::from_str(source), destination: paths::join(folder, name.as_str()) }
}

fn push_job(jobs: &mut Vec<CopyJob>, job: CopyJob)
    ensures
        job_views(final(jobs)@) == job_views(old(jobs)@).push(job@),
{
    jobs.push(job);
    assert(job_views(jobs@) =~= job_views(old(jobs)@).push(job@));
}

fn push_optional_copy(jobs: &mut Vec<CopyJob>, source: &Option<String>, folder: &str, base: &str)
    ensures
        job_views(final(jobs)@) == job_views(old(jobs)@) + optional_copy(
            optional_text(*source),
            folder@,
            base@,
        ),
{
    if let Some(path) = source {
        push_job(jobs, copy_job(path.as_str(), folder, base));
    }
}

/// The path of the video file to copy, if the video is a local file.
pub fn local_video(source: &Option<VideoSource>) -> (r: Option<String>)
    ensures
        optional_text(r) == local_video_of(optional_video(*source)),
{
    match source {
        Some(VideoSource::Local { path }) => Some(path.clone()),
        _ => None,
    }
}

/// Lists every file to copy into the presentation, in order.
pub fn copy_plan(config: &StoryspackConfig, layout: &Layout) -> (r: Vec<CopyJob>)
    ensures
        job_views(r@) == copies_of(config@, layout@),
{
    let slots = page_slots(config);
    let ghost images = image_copies(layout@.images, slots_of(config@));
    let ghost narration = narration_copies(layout@.audio, config@.narration_audio);
    let mut jobs: Vec<CopyJob> = Vec::new();
    assert(job_views(jobs@) =~= Seq::<CopyJobView>::empty());
    let mut k: usize = 0;
    while k < slots.len()
        invariant
            k <= slots.len(),
            slot_views(slots@) == slots_of(config@),
            images == image_copies(layout@.images, slots_of(config@)),
            job_views(jobs@) == images.take(k as int),
        decreases slots.len() - k,
    {
        let slot = &slots[k];
        let job = copy_job(slot.image.as_str(), layout.images.as_str(), slot.name.as_str());
        proof {
            assert(slot@ == slots_of(config@)[k as int]);
            assert(job@ == images[k as int]);
            assert(images.take(k + 1) == images.take(k as int).push(images[k as int]));
        }
        push_job(&mut jobs, job);
        k += 1;
    }
    assert(images.take(k as int) == images);
    let mut i: usize = 0;
    while i < config.narration_audio.len()
        invariant
            i <= config.narration_audio.len(),
            narration == narration_copies(layout@.audio, config@.narration_audio),
            job_views(jobs@) == images + narration.take(i as int),
        decreases config.narration_audio.len() - i,
    {
        let name = numbered_name("narration", i + 1);
        let job = copy_job(
            config.narration_audio[i].as_str(),
            layout.audio.as_str(),
            name.as_str(),
        );
        proof {
            assert(job@ == narration[i as int]);
            assert(narration.take(i + 1) == narration.take(i as int).push(narration[i as int]));
        }
        push_job(&mut jobs, job);
        i += 1;
    }
    assert(narration.take(i as int) == narration);
    push_optional_copy(&mut jobs, &config.theme_audio, layout.audio.as_str(), "theme");
    let video = local_video(&config.video_source);
    push_optional_copy(&mut jobs, &video, layout.video.as_str(), "video");
    jobs
}

/// Everything that makes up a presentation on disk.
#[derive(Debug, Clone)]
pub struct Storypack {
    /// Where its parts go.
    pub layout: Layout,
    /// The files to copy, in order.
    pub copies: Vec<CopyJob>,
    /// The text of the page of HTML.
    pub html: String,
    /// The text of the style sheet.
    pub css: String,
}

/// Plans the presentation `config` in `output_folder`: the folders to create,
/// the files to copy and the two files to write.
pub fn plan_storypack(config: &StoryspackConfig, output_folder: &str) -> (r: Storypack)
    ensures
        r.layout@ == layout_of(output_folder@, config@.project_name),
        job_views(r.copies@) == copies_of(config@, r.layout@),
        r.html@ == html_document(config@),
        r.css@ == markup::STYLESHEET@,
{
    let layout = layout(output_folder, config.project_name.as_str());
    let copies = copy_plan(config, &layout);
    Storypack { layout, copies, html: create_html_template(config), css: create_css_template() }
}

/// The desktop systems that know a program to show a folder.
#[derive(Debug, Clone, Copy, PartialEq, Eq, Structural)]
pub enum Platform {
    Windows,
    MacOs,
    Linux,
    Other,
}

/// The program that shows a folder on `platform`, if one is known.
pub open spec fn opener_of(platform: Platform) -> Option<Seq<char>> {
    match platform {
        Platform::Windows => Some("explorer"@),
        Platform::MacOs => Some("open"@),
        Platform::Linux => Some("xdg-open"@),
        Platform::Other => None,
    }
}

/// How to show the folder `path` on `platform`: the platform's program with
/// the path as its only argument.
pub open spec fn open_folder_of(platform: Platform, path: Seq<char>) -> Option<InvocationView> {
    match opener_of(platform) {
        Some(program) => Some(InvocationView { program, arguments: seq![path] }),
        None => None,
    }
}

/// Names the program that shows a folder on `platform`.
pub fn opener(platform: Platform) -> (r: Option<String>)
    ensures
        optional_text(r) == opener_of(platform),
{
    match platform {
        Platform::Windows => Some(String::from_str("explorer")),
        Platform::MacOs => Some(String::from_str("open")),
        Platform::Linux => Some(String::from_str("xdg-open")),
        Platform::Other => None,
    }
}

/// Says how to show the folder `path` on `platform`; nothing is to be done
/// where the platform has no program for it.
pub fn open_folder_command(platform: Platform, path: &str) -> (r: Option<Invocation>)
    ensures
        optional_invocation(r) == open_folder_of(platform, path@),
{
    match opener(platform) {
        Some(program) => {
            let mut arguments = no_texts();
            push_text(&mut arguments, path);
            assert(texts(arguments@) =~= seq![path@]);
            Some(Invocation { program, arguments })
        },
        None => None,
    }
}

} // verus!
