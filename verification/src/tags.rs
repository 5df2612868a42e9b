/// Links.
pub mod a;
/// The <body> tag.
pub mod body;
/// The nodes which may be mounted under <body>.
pub mod body_node;
/// The <br> (new line) tag.
pub mod br;
/// The <div> tag.
pub mod div;
/// The <form> tag.
pub mod form;
/// The <head> tag.
pub mod head;
/// The nodes which may be mounted under <head>.
pub mod head_node;
/// The heading tags (h1 to h6).
pub mod headings;
/// The <html> tag.
pub mod html;
/// The <img> tag.
pub mod img;
/// The <input> tag.
pub mod input;
/// The <label> tag.
pub mod label;
/// The <meta> tag.
pub mod meta;
/// The <noscript> tag.
pub mod noscript;
/// The <option> tag.
pub mod option;
/// The <p> (paragraph) tag.
pub mod p;
/// The <select> tag.
pub mod select;
/// The <style> tag.
pub mod style;
/// The <title> tag.
pub mod title;
