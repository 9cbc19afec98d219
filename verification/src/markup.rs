//! The markup of a storypack presentation: the fixed text, and the functions
//! that set the variable parts into it.
//!
//! Every variable part that is text, a title, a name, an address or an
//! extension, is escaped on its way in, so that it cannot end the attribute
//! or the element it stands in. Parts that are markup already, such as the
//! narration element of a page, go in as they are.

use vstd::prelude::*;
use vstd::string::*;
use crate::text::{decimal, decimal_string};

verus! {

/// The document up to the page title.
pub const DOCUMENT_HEAD: &'static str = r#"<!DOCTYPE html>
<html lang="en">
<head>
    <meta charset="UTF-8">
    <meta name="viewport" content="width=device-width, initial-scale=1.0">
    <title>"#;

/// From the page title to the place of the theme music.
pub const DOCUMENT_AFTER_TITLE: &'static str = r#"</title>
    <link rel="stylesheet" href="styles.css">
</head>
<body>
    "#;

/// From the theme music to the place of the video.
pub const DOCUMENT_AFTER_THEME: &'static str = r#"
    
    <div class="book-container">
        "#;

/// From the video to the place of the pages.
pub const DOCUMENT_AFTER_VIDEO: &'static str = r#"
        <div class="pages-wrapper">
            "#;

/// The rest of the document: navigation, audio controls and the script that turns the pages.
pub const DOCUMENT_TAIL: &'static str = r#"
        </div>
        
        <div class="navigation">
            <button id="prev-btn" class="nav-btn" disabled>◀ Previous</button>
            <span id="page-indicator">Page 1</span>
            <button id="next-btn" class="nav-btn">Next ▶</button>
        </div>
        
        <div class="audio-controls">
            <button id="play-narration" class="audio-btn" title="Play narration">🔊 Narration</button>
            <button id="toggle-music" class="audio-btn" title="Toggle background music">🎵 Music</button>
        </div>
    </div>
    
    <script>
        let currentPage = 0;
        const pages = document.querySelectorAll('.page');
        const totalPages = pages.length;
        const prevBtn = document.getElementById('prev-btn');
        const nextBtn = document.getElementById('next-btn');
        const pageIndicator = document.getElementById('page-indicator');
        const playNarrationBtn = document.getElementById('play-narration');
        const toggleMusicBtn = document.getElementById('toggle-music');
        const themeMusic = document.getElementById('theme-music');
        
        let musicPlaying = false;
        
        function showPage(index) {
            pages.forEach((page, i) => {
                page.classList.toggle('active', i === index);
            });
            
            currentPage = index;
            prevBtn.disabled = index === 0;
            nextBtn.disabled = index === totalPages - 1;
            pageIndicator.textContent = `Page ${index + 1} of ${totalPages}`;
            
            // Check if current page has audio
            const hasAudio = pages[index].querySelector('.page-audio');
            playNarrationBtn.style.display = hasAudio ? 'block' : 'none';
        }
        
        function playNarration() {
            const currentAudio = pages[currentPage].querySelector('.page-audio');
            if (currentAudio) {
                currentAudio.currentTime = 0;
                currentAudio.play();
            }
        }
        
        function toggleMusic() {
            if (!themeMusic) return;
            
            if (musicPlaying) {
                themeMusic.pause();
                toggleMusicBtn.textContent = '🎵 Music';
                musicPlaying = false;
            } else {
                themeMusic.play();
                toggleMusicBtn.textContent = '⏸️ Music';
                musicPlaying = true;
            }
        }
        
        prevBtn.addEventListener('click', () => {
            if (currentPage > 0) {
                showPage(currentPage - 1);
            }
        });
        
        nextBtn.addEventListener('click', () => {
            if (currentPage < totalPages - 1) {
                showPage(currentPage + 1);
            }
        });
        
        playNarrationBtn.addEventListener('click', playNarration);
        toggleMusicBtn.addEventListener('click', toggleMusic);
        
        // Hide music button if no theme music
        if (!themeMusic) {
            toggleMusicBtn.style.display = 'none';
        }
        
        // Keyboard navigation
        document.addEventListener('keydown', (e) => {
            if (e.key === 'ArrowLeft' && currentPage > 0) {
                showPage(currentPage - 1);
            } else if (e.key === 'ArrowRight' && currentPage < totalPages - 1) {
                showPage(currentPage + 1);
            } else if (e.key === ' ') {
                e.preventDefault();
                playNarration();
            }
        });
        
        // Initialize
        showPage(0);
    </script>
</body>
</html>"#;

/// A page up to its name.
pub const PAGE_OPEN: &'static str = r#"
        <div class="page" data-page=""#;

/// From a page's name to the name of its image file.
pub const PAGE_IMAGE: &'static str = r#"">
            <div class="page-content">
                <img src="assets/images/"#;

/// From the image file's extension to the page's title.
pub const PAGE_ALT: &'static str = r#"" alt=""#;

/// From the page's title to the place of its narration.
pub const PAGE_AUDIO: &'static str = r#"" class="page-image" />
                "#;

/// The end of a page.
pub const PAGE_CLOSE: &'static str = r#"
            </div>
        </div>"#;

/// A narration element up to its number.
pub const NARRATION_OPEN: &'static str = r#"<audio class="page-audio" src="assets/audio/narration"#;

/// The end of a narration element.
pub const NARRATION_CLOSE: &'static str = r#"" preload="auto"></audio>"#;

/// The theme music element up to its extension.
pub const THEME_OPEN: &'static str = r#"<audio id="theme-music" src="assets/audio/theme."#;

/// The end of the theme music element.
pub const THEME_CLOSE: &'static str = r#"" loop></audio>"#;

/// An embedded YouTube player up to the video's id.
pub const YOUTUBE_OPEN: &'static str = r#"
            <div class="video-container">
                <iframe 
                    src="https://www.youtube.com/embed/"#;

/// The end of an embedded YouTube player.
pub const YOUTUBE_CLOSE: &'static str = r#"" 
                    frameborder="0" 
                    allow="accelerometer; autoplay; clipboard-write; encrypted-media; gyroscope; picture-in-picture" 
                    allowfullscreen>
                </iframe>
            </div>"#;

/// A video element up to the address of a hosted file.
pub const HOSTED_VIDEO_OPEN: &'static str = r#"
            <div class="video-container">
                <video controls>
                    <source src=""#;

/// A video element up to the extension of the copied file.
pub const LOCAL_VIDEO_OPEN: &'static str = r#"
            <div class="video-container">
                <video controls>
                    <source src="assets/video/video."#;

/// The end of a video element.
pub const VIDEO_CLOSE: &'static str = r#"" type="video/mp4">
                    Your browser does not support the video tag.
                </video>
            </div>"#;

/// The style sheet that every presentation gets.
pub const STYLESHEET: &'static str = r#"* {
    margin: 0;
    padding: 0;
    box-sizing: border-box;
}

body {
    font-family: -apple-system, BlinkMacSystemFont, 'Segoe UI', Roboto, Oxygen, Ubuntu, Cantarell, sans-serif;
    background: linear-gradient(135deg, #667eea 0%, #764ba2 100%);
    min-height: 100vh;
    display: flex;
    justify-content: center;
    align-items: center;
    padding: 20px;
}

.book-container {
    background: white;
    border-radius: 12px;
    box-shadow: 0 20px 60px rgba(0, 0, 0, 0.3);
    max-width: 900px;
    width: 100%;
    overflow: hidden;
}

.video-container {
    position: relative;
    width: 100%;
    padding-top: 56.25%;
    background: #000;
}

.video-container iframe,
.video-container video {
    position: absolute;
    top: 0;
    left: 0;
    width: 100%;
    height: 100%;
}

.pages-wrapper {
    position: relative;
    width: 100%;
    min-height: 600px;
    background: #f5f5f5;
}

.page {
    display: none;
    width: 100%;
    min-height: 600px;
}

.page.active {
    display: flex;
}

.page-content {
    width: 100%;
    display: flex;
    justify-content: center;
    align-items: center;
    padding: 20px;
    flex-direction: column;
}

.page-image {
    max-width: 100%;
    max-height: 600px;
    object-fit: contain;
    border-radius: 4px;
}

.page-audio {
    display: none;
}

.navigation {
    display: flex;
    justify-content: space-between;
    align-items: center;
    padding: 20px 30px;
    background: white;
    border-top: 1px solid #e0e0e0;
}

.nav-btn {
    background: #667eea;
    color: white;
    border: none;
    padding: 12px 24px;
    border-radius: 6px;
    cursor: pointer;
    font-size: 14px;
    font-weight: 500;
    transition: all 0.3s ease;
}

.nav-btn:hover:not(:disabled) {
    background: #5568d3;
    transform: translateY(-2px);
    box-shadow: 0 4px 12px rgba(102, 126, 234, 0.4);
}

.nav-btn:disabled {
    background: #ccc;
    cursor: not-allowed;
    transform: none;
}

#page-indicator {
    font-size: 14px;
    color: #666;
    font-weight: 500;
}

.audio-controls {
    display: flex;
    justify-content: center;
    gap: 12px;
    padding: 15px;
    background: #f8f8f8;
    border-top: 1px solid #e0e0e0;
}

.audio-btn {
    background: #764ba2;
    color: white;
    border: none;
    padding: 10px 20px;
    border-radius: 6px;
    cursor: pointer;
    font-size: 13px;
    font-weight: 500;
    transition: all 0.3s ease;
}

.audio-btn:hover {
    background: #5e3882;
    transform: translateY(-2px);
}

@media (max-width: 768px) {
    .book-container {
        border-radius: 0;
    }
    
    .pages-wrapper {
        min-height: 400px;
    }
    
    .page {
        min-height: 400px;
    }
    
    .page-image {
        max-height: 400px;
    }
    
    .navigation {
        padding: 15px 20px;
    }
    
    .nav-btn {
        padding: 10px 16px;
        font-size: 12px;
    }
    
    #page-indicator {
        font-size: 12px;
    }
    
    .audio-controls {
        padding: 12px;
        gap: 8px;
    }
    
    .audio-btn {
        padding: 8px 16px;
        font-size: 12px;
    }
}"#;


/// What stands for the character `c` in text and in attribute values.
pub open spec fn escaped_char(c: char) -> Seq<char> {
    if c == '&' {
        "&amp;"@
    } else if c == '<' {
        "&lt;"@
    } else if c == '>' {
        "&gt;"@
    } else if c == '"' {
        "&quot;"@
    } else if c == '\'' {
        "&#39;"@
    } else {
        seq![c]
    }
}

/// `s` with each of `&`, `<`, `>`, `"` and `'` replaced by its entity.
pub open spec fn escaped(s: Seq<char>) -> Seq<char>
    decreases s.len(),
{
    if s.len() == 0 {
        Seq::empty()
    } else {
        escaped(s.drop_last()) + escaped_char(s.last())
    }
}

/// `c` is one of the characters that open or close a tag or a quoted value.
pub open spec fn is_delimiter(c: char) -> bool {
    c == '<' || c == '>' || c == '"' || c == '\''
}

/// `c` is one of the characters that `escaped` replaces.
pub open spec fn is_special(c: char) -> bool {
    c == '&' || is_delimiter(c)
}

/// Escaped text holds no character that opens or closes a tag or a quoted
/// value.
pub proof fn lemma_escaped_has_no_delimiter(s: Seq<char>)
    ensures
        forall|i: int| 0 <= i < escaped(s).len() ==> !is_delimiter(#[trigger] escaped(s)[i]),
    decreases s.len(),
{
    if s.len() > 0 {
        lemma_escaped_has_no_delimiter(s.drop_last());
        reveal_strlit("&amp;");
        reveal_strlit("&lt;");
        reveal_strlit("&gt;");
        reveal_strlit("&quot;");
        reveal_strlit("&#39;");
        let head = escaped(s.drop_last());
        let tail = escaped_char(s.last());
        assert forall|i: int| 0 <= i < tail.len() implies !is_delimiter(#[trigger] tail[i]) by {}
        assert forall|i: int| 0 <= i < escaped(s).len() implies !is_delimiter(
            #[trigger] escaped(s)[i],
        ) by {
            if i >= head.len() {
                assert(escaped(s)[i] == tail[i - head.len()]);
            }
        }
    }
}

/// Text without special characters is its own escaped form.
pub proof fn lemma_escaped_plain(s: Seq<char>)
    requires
        forall|i: int| 0 <= i < s.len() ==> !is_special(#[trigger] s[i]),
    ensures
        escaped(s) == s,
    decreases s.len(),
{
    if s.len() > 0 {
        lemma_escaped_plain(s.drop_last());
        assert(!is_special(s[s.len() - 1]));
        assert(escaped(s) == s.drop_last() + seq![s.last()]);
    }
}

/// Escapes `s` for use as text or as an attribute value.
pub fn escape(s: &str) -> (r: String)
    ensures
        r@ == escaped(s@),
{
    let mut out = String::new();
    for c in it: s.chars()
        invariant
            it.seq() == s@,
            out@ == escaped(s@.take(it.index() as int)),
    {
        proof {
            let next = s@.take(it.index() + 1);
            assert(next.drop_last() == s@.take(it.index() as int));
            assert(next.last() == c);
        }
        if c == '&' {
            out.append("&amp;");
        } else if c == '<' {
            out.append("&lt;");
        } else if c == '>' {
            out.append("&gt;");
        } else if c == '"' {
            out.append("&quot;");
        } else if c == '\'' {
            out.append("&#39;");
        } else {
            out.push(c);
        }
    }
    assert(s@.take(s@.len() as int) == s@);
    out
}

/// One page: its name, the image `<name>.<extension>` under the title, and the
/// narration element, if any.
pub open spec fn page_block(
    name: Seq<char>,
    title: Seq<char>,
    extension: Seq<char>,
    audio: Seq<char>,
) -> Seq<char> {
    PAGE_OPEN@ + escaped(name) + PAGE_IMAGE@ + escaped(name) + "."@ + escaped(extension)
        + PAGE_ALT@ + escaped(title) + PAGE_AUDIO@ + audio + PAGE_CLOSE@
}

/// The narration element of the file `narration<number>.<extension>`.
pub open spec fn narration_element(number: nat, extension: Seq<char>) -> Seq<char> {
    NARRATION_OPEN@ + decimal(number) + "."@ + escaped(extension) + NARRATION_CLOSE@
}

/// The theme music element of the file `theme.<extension>`.
pub open spec fn theme_element(extension: Seq<char>) -> Seq<char> {
    THEME_OPEN@ + escaped(extension) + THEME_CLOSE@
}

/// The embedded player of the YouTube video `video_id`.
pub open spec fn youtube_block(video_id: Seq<char>) -> Seq<char> {
    YOUTUBE_OPEN@ + escaped(video_id) + YOUTUBE_CLOSE@
}

/// The video element of a file hosted at `url`.
pub open spec fn hosted_video_block(url: Seq<char>) -> Seq<char> {
    HOSTED_VIDEO_OPEN@ + escaped(url) + VIDEO_CLOSE@
}

/// The video element of the copied file `video.<extension>`.
pub open spec fn local_video_block(extension: Seq<char>) -> Seq<char> {
    LOCAL_VIDEO_OPEN@ + escaped(extension) + VIDEO_CLOSE@
}

/// The whole document around a title, and around the markup of the theme
/// music, the video and the pages.
pub open spec fn document(
    title: Seq<char>,
    theme: Seq<char>,
    video: Seq<char>,
    pages: Seq<char>,
) -> Seq<char> {
    DOCUMENT_HEAD@ + escaped(title) + DOCUMENT_AFTER_TITLE@ + theme + DOCUMENT_AFTER_THEME@ + video
        + DOCUMENT_AFTER_VIDEO@ + pages + DOCUMENT_TAIL@
}

/// Writes one page; `audio` is the markup of its narration.
pub fn page_html(name: &str, title: &str, extension: &str, audio: &str) -> (r: String)
    ensures
        r@ == page_block(name@, title@, extension@, audio@),
{
    let name = escape(name);
    let mut out = String::from_str(PAGE_OPEN);
    out.append(name.as_str());
    out.append(PAGE_IMAGE);
    out.append(name.as_str());
    out.append(".");
    out.append(escape(extension).as_str());
    out.append(PAGE_ALT);
    out.append(escape(title).as_str());
    out.append(PAGE_AUDIO);
    out.append(audio);
    out.append(PAGE_CLOSE);
    out
}

/// Writes the narration element of the narration file numbered `number`.
pub fn narration_tag(number: usize, extension: &str) -> (r: String)
    ensures
        r@ == narration_element(number as nat, extension@),
{
    let mut out = String::from_str(NARRATION_OPEN);
    out.append(decimal_string(number).as_str());
    out.append(".");
    out.append(escape(extension).as_str());
    out.append(NARRATION_CLOSE);
    out
}

/// Writes the theme music element.
pub fn theme_tag(extension: &str) -> (r: String)
    ensures
        r@ == theme_element(extension@),
{
    let mut out = String::from_str(THEME_OPEN);
    out.append(escape(extension).as_str());
    out.append(THEME_CLOSE);
    out
}

/// Writes the embedded player of a YouTube video.
pub fn youtube_html(video_id: &str) -> (r: String)
    ensures
        r@ == youtube_block(video_id@),
{
    let mut out = String::from_str(YOUTUBE_OPEN);
    out.append(escape(video_id).as_str());
    out.append(YOUTUBE_CLOSE);
    out
}

/// Writes the video element of a hosted file.
pub fn hosted_video_html(url: &str) -> (r: String)
    ensures
        r@ == hosted_video_block(url@),
{
    let mut out = String::from_str(HOSTED_VIDEO_OPEN);
    out.append(escape(url).as_str());
    out.append(VIDEO_CLOSE);
    out
}

/// Writes the video element of the copied video file.
pub fn local_video_html(extension: &str) -> (r: String)
    ensures
        r@ == local_video_block(extension@),
{
    let mut out = String::from_str(LOCAL_VIDEO_OPEN);
    out.append(escape(extension).as_str());
    out.append(VIDEO_CLOSE);
    out
}

/// Writes the whole document; `theme`, `video` and `pages` are markup.
pub fn document_html(title: &str, theme: &str, video: &str, pages: &str) -> (r: String)
    ensures
        r@ == document(title@, theme@, video@, pages@),
{
    let mut out = String::from_str(DOCUMENT_HEAD);
    out.append(escape(title).as_str());
    out.append(DOCUMENT_AFTER_TITLE);
    out.append(theme);
    out.append(DOCUMENT_AFTER_THEME);
    out.append(video);
    out.append(DOCUMENT_AFTER_VIDEO);
    out.append(pages);
    out.append(DOCUMENT_TAIL);
    out
}

} // verus!
