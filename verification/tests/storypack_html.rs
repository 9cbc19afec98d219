use storyforge::markup::{
    document_html, escape, hosted_video_html, local_video_html, narration_tag, page_html, theme_tag,
    youtube_html,
};
use storyforge::storypack::{
    create_css_template, create_html_template, get_extension, page_audio, page_slots,
    theme_html, video_html, StoryspackConfig, VideoSource,
};

fn document(title: &str, theme: &str, video: &str, pages: &str) -> String {
    format!(
        r#"<!DOCTYPE html>
<html lang="en">
<head>
    <meta charset="UTF-8">
    <meta name="viewport" content="width=device-width, initial-scale=1.0">
    <title>{}</title>
    <link rel="stylesheet" href="styles.css">
</head>
<body>
    {}
    
    <div class="book-container">
        {}
        <div class="pages-wrapper">
            {}
        </div>
        
        <div class="navigation">
            <button id="prev-btn" class="nav-btn" disabled>◀ Previous</button>
            <span id="page-indicator">Page 1</span>
            <button id="next-btn" class="nav-btn">Next ▶</button>
        </div>
        
        <div class="audio-controls">
            <button id="play-narration" class="audio-btn" title="Play narration">🔊 Narration</button>
            <button id="toggle-music" class="audio-btn" title="Toggle background music">🎵 Music</button>
        </div>
    </div>
    
    <script>
        let currentPage = 0;
        const pages = document.querySelectorAll('.page');
        const totalPages = pages.length;
        const prevBtn = document.getElementById('prev-btn');
        const nextBtn = document.getElementById('next-btn');
        const pageIndicator = document.getElementById('page-indicator');
        const playNarrationBtn = document.getElementById('play-narration');
        const toggleMusicBtn = document.getElementById('toggle-music');
        const themeMusic = document.getElementById('theme-music');
        
        let musicPlaying = false;
        
        function showPage(index) {{
            pages.forEach((page, i) => {{
                page.classList.toggle('active', i === index);
            }});
            
            currentPage = index;
            prevBtn.disabled = index === 0;
            nextBtn.disabled = index === totalPages - 1;
            pageIndicator.textContent = `Page ${{index + 1}} of ${{totalPages}}`;
            
            // Check if current page has audio
            const hasAudio = pages[index].querySelector('.page-audio');
            playNarrationBtn.style.display = hasAudio ? 'block' : 'none';
        }}
        
        function playNarration() {{
            const currentAudio = pages[currentPage].querySelector('.page-audio');
            if (currentAudio) {{
                currentAudio.currentTime = 0;
                currentAudio.play();
            }}
        }}
        
        function toggleMusic() {{
            if (!themeMusic) return;
            
            if (musicPlaying) {{
                themeMusic.pause();
                toggleMusicBtn.textContent = '🎵 Music';
                musicPlaying = false;
            }} else {{
                themeMusic.play();
                toggleMusicBtn.textContent = '⏸️ Music';
                musicPlaying = true;
            }}
        }}
        
        prevBtn.addEventListener('click', () => {{
            if (currentPage > 0) {{
                showPage(currentPage - 1);
            }}
        }});
        
        nextBtn.addEventListener('click', () => {{
            if (currentPage < totalPages - 1) {{
                showPage(currentPage + 1);
            }}
        }});
        
        playNarrationBtn.addEventListener('click', playNarration);
        toggleMusicBtn.addEventListener('click', toggleMusic);
        
        // Hide music button if no theme music
        if (!themeMusic) {{
            toggleMusicBtn.style.display = 'none';
        }}
        
        // Keyboard navigation
        document.addEventListener('keydown', (e) => {{
            if (e.key === 'ArrowLeft' && currentPage > 0) {{
                showPage(currentPage - 1);
            }} else if (e.key === 'ArrowRight' && currentPage < totalPages - 1) {{
                showPage(currentPage + 1);
            }} else if (e.key === ' ') {{
                e.preventDefault();
                playNarration();
            }}
        }});
        
        // Initialize
        showPage(0);
    </script>
</body>
</html>"#,
        title, theme, video, pages
    )
}

fn cover_page(ext: &str, audio: &str) -> String {
    format!(
        r#"
        <div class="page" data-page="cover">
            <div class="page-content">
                <img src="assets/images/cover.{}" alt="Cover" class="page-image" />
                {}
            </div>
        </div>"#,
        ext, audio
    )
}

fn chapter_page(number: usize, ext: &str, audio: &str) -> String {
    format!(
        r#"
        <div class="page" data-page="chapter{}">
            <div class="page-content">
                <img src="assets/images/chapter{}.{}" alt="Chapter {}" class="page-image" />
                {}
            </div>
        </div>"#,
        number, number, ext, number, audio
    )
}

fn named_page(name: &str, title: &str, ext: &str, audio: &str) -> String {
    cover_page(ext, audio)
        .replace("data-page=\"cover\"", &format!("data-page=\"{}\"", name))
        .replace("images/cover.", &format!("images/{}.", name))
        .replace("alt=\"Cover\"", &format!("alt=\"{}\"", title))
}

fn narration(number: usize, ext: &str) -> String {
    format!(
        r#"<audio class="page-audio" src="assets/audio/narration{}.{}" preload="auto"></audio>"#,
        number, ext
    )
}

fn empty_config(name: &str) -> StoryspackConfig {
    StoryspackConfig {
        project_name: name.to_string(),
        cover_image: None,
        prologue_image: None,
        chapter_images: vec![],
        epilogue_image: None,
        credits_image: None,
        narration_audio: vec![],
        theme_audio: None,
        video_source: None,
    }
}

fn full_config() -> StoryspackConfig {
    StoryspackConfig {
        project_name: "The Lighthouse".to_string(),
        cover_image: Some("/art/front.png".to_string()),
        prologue_image: Some("/art/before.jpeg".to_string()),
        chapter_images: vec![
            "/art/one.webp".to_string(),
            "/art/two".to_string(),
            "/art/three.final.gif".to_string(),
        ],
        epilogue_image: Some("/art/after.png".to_string()),
        credits_image: Some("/art/thanks.jpg".to_string()),
        narration_audio: vec![
            "/voice/a.mp3".to_string(),
            "/voice/b.wav".to_string(),
            "/voice/c".to_string(),
        ],
        theme_audio: Some("/music/theme song.ogg".to_string()),
        video_source: Some(VideoSource::Local { path: "/film/cut.mov".to_string() }),
    }
}

#[test]
fn page_html_fills_the_page_template() {
    assert_eq!(page_html("cover", "Cover", "png", ""), cover_page("png", ""));
    assert_eq!(
        page_html("chapter12", "Chapter 12", "gif", "<audio></audio>"),
        chapter_page(12, "gif", "<audio></audio>")
    );
    assert_eq!(
        page_html("cover", "Cover", "png", ""),
        "\n        <div class=\"page\" data-page=\"cover\">\n            <div class=\"page-content\">\n                <img src=\"assets/images/cover.png\" alt=\"Cover\" class=\"page-image\" />\n                \n            </div>\n        </div>"
    );
}

#[test]
fn narration_tag_names_the_numbered_file() {
    assert_eq!(narration_tag(1, "mp3"), narration(1, "mp3"));
    assert_eq!(narration_tag(27, "wav"), narration(27, "wav"));
    assert_eq!(
        narration_tag(3, "ogg"),
        "<audio class=\"page-audio\" src=\"assets/audio/narration3.ogg\" preload=\"auto\"></audio>"
    );
}

#[test]
fn theme_tag_names_the_theme_file() {
    assert_eq!(
        theme_tag("mp3"),
        "<audio id=\"theme-music\" src=\"assets/audio/theme.mp3\" loop></audio>"
    );
}

#[test]
fn video_blocks_fill_their_templates() {
    assert_eq!(
        youtube_html("dQw4w9WgXcQ"),
        format!(
            r#"
            <div class="video-container">
                <iframe 
                    src="https://www.youtube.com/embed/{}" 
                    frameborder="0" 
                    allow="accelerometer; autoplay; clipboard-write; encrypted-media; gyroscope; picture-in-picture" 
                    allowfullscreen>
                </iframe>
            </div>"#,
            "dQw4w9WgXcQ"
        )
    );
    assert_eq!(
        hosted_video_html("https://example.org/film.mp4"),
        format!(
            r#"
            <div class="video-container">
                <video controls>
                    <source src="{}" type="video/mp4">
                    Your browser does not support the video tag.
                </video>
            </div>"#,
            "https://example.org/film.mp4"
        )
    );
    assert_eq!(
        local_video_html("mov"),
        format!(
            r#"
            <div class="video-container">
                <video controls>
                    <source src="assets/video/video.{}" type="video/mp4">
                    Your browser does not support the video tag.
                </video>
            </div>"#,
            "mov"
        )
    );
}

#[test]
fn document_html_fills_the_document_template() {
    assert_eq!(document_html("T", "<a>", "<v>", "<p>"), document("T", "<a>", "<v>", "<p>"));
    let html = document_html("My Story", "", "", "");
    assert!(html.starts_with("<!DOCTYPE html>\n<html lang=\"en\">\n<head>"));
    assert!(html.contains("<title>My Story</title>"));
    assert!(html.contains("pageIndicator.textContent = `Page ${index + 1} of ${totalPages}`;"));
    assert!(html.contains("function showPage(index) {\n"));
    assert!(html.ends_with("        showPage(0);\n    </script>\n</body>\n</html>"));
}

#[test]
fn get_extension_falls_back_to_jpg() {
    assert_eq!(get_extension("/art/front.png"), "png");
    assert_eq!(get_extension("/art/three.final.gif"), "gif");
    assert_eq!(get_extension("/art/two"), "jpg");
    assert_eq!(get_extension("/art/.hidden"), "jpg");
    assert_eq!(get_extension("/art.d/two"), "jpg");
    assert_eq!(get_extension(""), "jpg");
    assert_eq!(get_extension("/art/dot."), "");
}

#[test]
fn page_slots_come_in_reading_order() {
    let slots = page_slots(&full_config());
    let names: Vec<&str> = slots.iter().map(|s| s.name.as_str()).collect();
    assert_eq!(
        names,
        vec!["cover", "prologue", "chapter1", "chapter2", "chapter3", "epilogue", "credits"]
    );
    let titles: Vec<&str> = slots.iter().map(|s| s.title.as_str()).collect();
    assert_eq!(
        titles,
        vec!["Cover", "Prologue", "Chapter 1", "Chapter 2", "Chapter 3", "Epilogue", "Credits"]
    );
    let images: Vec<&str> = slots.iter().map(|s| s.image.as_str()).collect();
    assert_eq!(
        images,
        vec![
            "/art/front.png",
            "/art/before.jpeg",
            "/art/one.webp",
            "/art/two",
            "/art/three.final.gif",
            "/art/after.png",
            "/art/thanks.jpg"
        ]
    );
    assert!(page_slots(&empty_config("x")).is_empty());
}

#[test]
fn page_slots_skip_missing_pages() {
    let mut config = empty_config("x");
    config.prologue_image = Some("p.png".to_string());
    config.chapter_images = vec!["c.png".to_string()];
    let slots = page_slots(&config);
    let names: Vec<&str> = slots.iter().map(|s| s.name.as_str()).collect();
    assert_eq!(names, vec!["prologue", "chapter1"]);
}

#[test]
fn page_audio_runs_out_with_the_narration() {
    let voices = vec!["/voice/a.mp3".to_string(), "/voice/b".to_string()];
    assert_eq!(page_audio(&voices, 0), narration(1, "mp3"));
    assert_eq!(page_audio(&voices, 1), narration(2, "jpg"));
    assert_eq!(page_audio(&voices, 2), "");
    assert_eq!(page_audio(&vec![], 0), "");
}

#[test]
fn theme_and_video_are_empty_when_absent() {
    assert_eq!(theme_html(&None), "");
    assert_eq!(video_html(&None), "");
    assert_eq!(theme_html(&Some("/m/t.ogg".to_string())), theme_tag("ogg"));
    assert_eq!(theme_html(&Some("/m/t".to_string())), theme_tag("jpg"));
    assert_eq!(
        video_html(&Some(VideoSource::YouTube { video_id: "abc".to_string() })),
        youtube_html("abc")
    );
    assert_eq!(
        video_html(&Some(VideoSource::Hosted { url: "https://h/v.mp4".to_string() })),
        hosted_video_html("https://h/v.mp4")
    );
    assert_eq!(
        video_html(&Some(VideoSource::Local { path: "/film/cut.mov".to_string() })),
        local_video_html("mov")
    );
    assert_eq!(
        video_html(&Some(VideoSource::Local { path: "/film/cut".to_string() })),
        local_video_html("jpg")
    );
}

#[test]
fn create_html_template_of_an_empty_presentation() {
    assert_eq!(create_html_template(&empty_config("Nothing yet")), document("Nothing yet", "", "", ""));
}

#[test]
fn create_html_template_of_a_full_presentation() {
    let pages = vec![
        cover_page("png", &narration(1, "mp3")),
        named_page("prologue", "Prologue", "jpeg", &narration(2, "wav")),
        chapter_page(1, "webp", &narration(3, "jpg")),
        chapter_page(2, "jpg", ""),
        chapter_page(3, "gif", ""),
        named_page("epilogue", "Epilogue", "png", ""),
        named_page("credits", "Credits", "jpg", ""),
    ]
    .join("\n");
    let expected = document(
        "The Lighthouse",
        "<audio id=\"theme-music\" src=\"assets/audio/theme.ogg\" loop></audio>",
        &local_video_html("mov"),
        &pages,
    );
    assert_eq!(create_html_template(&full_config()), expected);
}

#[test]
fn create_html_template_gives_narration_to_the_first_pages_only() {
    let mut config = empty_config("Two voices");
    config.chapter_images =
        vec!["1.png".to_string(), "2.png".to_string(), "3.png".to_string(), "4.png".to_string()];
    config.narration_audio = vec!["a.mp3".to_string(), "b.mp3".to_string()];
    let html = create_html_template(&config);
    assert_eq!(html.matches("class=\"page-audio\"").count(), 2);
    assert_eq!(html.matches("<div class=\"page\" ").count(), 4);
    let pages = vec![
        chapter_page(1, "png", &narration(1, "mp3")),
        chapter_page(2, "png", &narration(2, "mp3")),
        chapter_page(3, "png", ""),
        chapter_page(4, "png", ""),
    ]
    .join("\n");
    assert_eq!(html, document("Two voices", "", "", &pages));
}

#[test]
fn escape_replaces_the_five_special_characters() {
    assert_eq!(
        escape("Tom & <Jerry> \"x\" 'y'"),
        "Tom &amp; &lt;Jerry&gt; &quot;x&quot; &#39;y&#39;"
    );
    assert_eq!(escape("&amp;"), "&amp;amp;");
    assert_eq!(escape("<<"), "&lt;&lt;");
}

#[test]
fn escape_leaves_plain_text_alone() {
    assert_eq!(escape(""), "");
    assert_eq!(escape("The Lighthouse, part 2: r\u{e9}sum\u{e9}"), "The Lighthouse, part 2: r\u{e9}sum\u{e9}");
    assert_eq!(escape("https://example.org/a/b.mp4?x=1#t"), "https://example.org/a/b.mp4?x=1#t");
}

#[test]
fn create_html_template_escapes_the_title() {
    let html = create_html_template(&empty_config("Tom & <Jerry>"));
    assert!(html.contains("<title>Tom &amp; &lt;Jerry&gt;</title>"));
    assert_eq!(html, document("Tom &amp; &lt;Jerry&gt;", "", "", ""));
}

#[test]
fn markup_escapes_addresses_and_extensions() {
    assert_eq!(
        hosted_video_html("https://h/v.mp4?a=1&b=\"2\""),
        hosted_video_html("x").replace("src=\"x\"", "src=\"https://h/v.mp4?a=1&amp;b=&quot;2&quot;\"")
    );
    assert_eq!(
        youtube_html("\"><script>"),
        youtube_html("x").replace("embed/x\"", "embed/&quot;&gt;&lt;script&gt;\"")
    );
    assert_eq!(
        theme_tag("o\"gg"),
        "<audio id=\"theme-music\" src=\"assets/audio/theme.o&quot;gg\" loop></audio>"
    );
    assert_eq!(
        page_html("cover", "A <b>", "p'ng", "<audio></audio>"),
        cover_page("p&#39;ng", "<audio></audio>").replace("alt=\"Cover\"", "alt=\"A &lt;b&gt;\"")
    );
}

#[test]
fn create_html_template_numbers_past_nine() {
    let mut config = empty_config("Long");
    config.chapter_images = (0..11).map(|i| format!("c{}.png", i)).collect();
    let html = create_html_template(&config);
    assert!(html.contains("data-page=\"chapter10\""));
    assert!(html.contains("src=\"assets/images/chapter11.png\" alt=\"Chapter 11\""));
}

#[test]
fn create_css_template_is_the_style_sheet() {
    let css = create_css_template();
    assert_eq!(
        css,
        r#"* {
    margin: 0;
    padding: 0;
    box-sizing: border-box;
}

body {
    font-family: -apple-system, BlinkMacSystemFont, 'Segoe UI', Roboto, Oxygen, Ubuntu, Cantarell, sans-serif;
    background: linear-gradient(135deg, #667eea 0%, #764ba2 100%);
    min-height: 100vh;
    display: flex;
    justify-content: center;
    align-items: center;
    padding: 20px;
}

.book-container {
    background: white;
    border-radius: 12px;
    box-shadow: 0 20px 60px rgba(0, 0, 0, 0.3);
    max-width: 900px;
    width: 100%;
    overflow: hidden;
}

.video-container {
    position: relative;
    width: 100%;
    padding-top: 56.25%;
    background: #000;
}

.video-container iframe,
.video-container video {
    position: absolute;
    top: 0;
    left: 0;
    width: 100%;
    height: 100%;
}

.pages-wrapper {
    position: relative;
    width: 100%;
    min-height: 600px;
    background: #f5f5f5;
}

.page {
    display: none;
    width: 100%;
    min-height: 600px;
}

.page.active {
    display: flex;
}

.page-content {
    width: 100%;
    display: flex;
    justify-content: center;
    align-items: center;
    padding: 20px;
    flex-direction: column;
}

.page-image {
    max-width: 100%;
    max-height: 600px;
    object-fit: contain;
    border-radius: 4px;
}

.page-audio {
    display: none;
}

.navigation {
    display: flex;
    justify-content: space-between;
    align-items: center;
    padding: 20px 30px;
    background: white;
    border-top: 1px solid #e0e0e0;
}

.nav-btn {
    background: #667eea;
    color: white;
    border: none;
    padding: 12px 24px;
    border-radius: 6px;
    cursor: pointer;
    font-size: 14px;
    font-weight: 500;
    transition: all 0.3s ease;
}

.nav-btn:hover:not(:disabled) {
    background: #5568d3;
    transform: translateY(-2px);
    box-shadow: 0 4px 12px rgba(102, 126, 234, 0.4);
}

.nav-btn:disabled {
    background: #ccc;
    cursor: not-allowed;
    transform: none;
}

#page-indicator {
    font-size: 14px;
    color: #666;
    font-weight: 500;
}

.audio-controls {
    display: flex;
    justify-content: center;
    gap: 12px;
    padding: 15px;
    background: #f8f8f8;
    border-top: 1px solid #e0e0e0;
}

.audio-btn {
    background: #764ba2;
    color: white;
    border: none;
    padding: 10px 20px;
    border-radius: 6px;
    cursor: pointer;
    font-size: 13px;
    font-weight: 500;
    transition: all 0.3s ease;
}

.audio-btn:hover {
    background: #5e3882;
    transform: translateY(-2px);
}

@media (max-width: 768px) {
    .book-container {
        border-radius: 0;
    }
    
    .pages-wrapper {
        min-height: 400px;
    }
    
    .page {
        min-height: 400px;
    }
    
    .page-image {
        max-height: 400px;
    }
    
    .navigation {
        padding: 15px 20px;
    }
    
    .nav-btn {
        padding: 10px 16px;
        font-size: 12px;
    }
    
    #page-indicator {
        font-size: 12px;
    }
    
    .audio-controls {
        padding: 12px;
        gap: 8px;
    }
    
    .audio-btn {
        padding: 8px 16px;
        font-size: 12px;
    }
}"#
    );
    assert!(css.starts_with("* {\n    margin: 0;"));
    assert!(css.ends_with("    .audio-btn {\n        padding: 8px 16px;\n        font-size: 12px;\n    }\n}"));
    assert_eq!(css.len(), 3086);
}
